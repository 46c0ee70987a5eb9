//! The package script document: its validated form, the mathematical model of
//! validation, and the loader that turns a document text into a
//! `PackageScript` or an error.

use vstd::prelude::*;
use crate::json_data::{
    json_of, json_text, parse_document, value_as_array, value_as_str, value_get, value_is_object,
    JsonModel,
};

verus! {

/// The two named install phases of a package script, each an optional ordered
/// command sequence.
#[derive(Debug, Clone, PartialEq, Eq)]
pub struct InstallSteps {
    pub cloning: Option<Vec<String>>,
    pub building: Option<Vec<String>>,
}

/// A validated package script: an optional install section and an optional
/// flat uninstall command sequence. Absence of a section is valid and simply
/// skips the corresponding phase.
#[derive(Debug, Clone, PartialEq, Eq)]
pub struct PackageScript {
    pub install: Option<InstallSteps>,
    pub uninstall: Option<Vec<String>>,
}

/// Why a package operation failed.
#[derive(Debug, Clone, Copy, PartialEq, Eq)]
pub enum ScriptError {
    /// The environment has no resolvable home directory.
    HomeDirUnavailable,
    /// The script file is missing or unreadable.
    ReadError,
    /// The script file content is not valid JSON.
    ParseError,
    /// The document parsed but is not maps and sequences of strings in the
    /// expected positions.
    InvalidShape,
}

/// The mathematical model of an install section.
pub struct InstallModel {
    pub cloning: Option<Seq<Seq<char>>>,
    pub building: Option<Seq<Seq<char>>>,
}

/// The mathematical model of a validated package script.
pub struct ScriptModel {
    pub install: Option<InstallModel>,
    pub uninstall: Option<Seq<Seq<char>>>,
}

impl InstallSteps {
    /// The install section as its model.
    pub open spec fn model(&self) -> InstallModel {
        InstallModel { cloning: self.cloning.deep_view(), building: self.building.deep_view() }
    }
}

impl PackageScript {
    /// The script as its model.
    pub open spec fn model(&self) -> ScriptModel {
        ScriptModel {
            install: match self.install {
                Some(i) => Some(i.model()),
                None => None,
            },
            uninstall: self.uninstall.deep_view(),
        }
    }
}

/// The command sequence a JSON value stands for: a list whose items are all
/// strings; anything else is malformed.
pub open spec fn command_seq_of(j: JsonModel) -> Option<Seq<Seq<char>>> {
    if j is List && (forall|i: int| 0 <= i < j->items.len() ==> (#[trigger] j->items[i]) is Text) {
        Some(Seq::new(j->items.len(), |i: int| j->items[i]->s))
    } else {
        None
    }
}

/// An optional command section of an object: absent is a valid `None`,
/// present but malformed poisons the whole document.
pub open spec fn section_of(e: Map<Seq<char>, JsonModel>, key: Seq<char>) -> Option<
    Option<Seq<Seq<char>>>,
> {
    if e.contains_key(key) {
        match command_seq_of(e[key]) {
            Some(cmds) => Some(Some(cmds)),
            None => None,
        }
    } else {
        Some(None)
    }
}

/// The install section an `install` value stands for: an object with
/// optional `cloning` and `building` command sequences.
pub open spec fn install_model_of(j: JsonModel) -> Option<InstallModel> {
    if j is Object {
        let c = section_of(j->entries, "cloning"@);
        let b = section_of(j->entries, "building"@);
        if c is Some && b is Some {
            Some(InstallModel { cloning: c->0, building: b->0 })
        } else {
            None
        }
    } else {
        None
    }
}

/// The script a whole document stands for: a top-level object with an
/// optional well-formed `install` object and an optional `uninstall` command
/// sequence. `None` is the `InvalidShape` case.
pub open spec fn script_model_of(j: JsonModel) -> Option<ScriptModel> {
    if j is Object {
        let e = j->entries;
        let inst = if e.contains_key("install"@) {
            match install_model_of(e["install"@]) {
                Some(m) => Some(Some(m)),
                None => None,
            }
        } else {
            Some(None)
        };
        let unin = section_of(e, "uninstall"@);
        if inst is Some && unin is Some {
            Some(ScriptModel { install: inst->0, uninstall: unin->0 })
        } else {
            None
        }
    } else {
        None
    }
}

/// What loading a document text yields: a parse error on invalid JSON, a
/// shape error on a malformed document, and the validated script otherwise.
pub open spec fn load_result(text: Seq<char>) -> Result<ScriptModel, ScriptError> {
    match json_text(text) {
        None => Err(ScriptError::ParseError),
        Some(j) => match script_model_of(j) {
            None => Err(ScriptError::InvalidShape),
            Some(m) => Ok(m),
        },
    }
}

/// Reads one command sequence out of a JSON value, rejecting anything that is
/// not a list of strings.
#[verifier::loop_isolation(false)]
fn extract_commands(v: &serde_json::Value) -> (r: Option<Vec<String>>)
    ensures
        match command_seq_of(json_of(*v)) {
            Some(cmds) => r matches Some(out) && out.deep_view() == cmds,
            None => r is None,
        },
{
    let arr = match value_as_array(v) {
        Some(a) => a,
        None => {
            return None;
        },
    };
    let mut out: Vec<String> = Vec::new();
    let mut i: usize = 0;
    while i < arr.len()
        invariant
            i <= arr.len(),
            out@.len() == i,
            forall|k: int| 0 <= k < i ==> (#[trigger] json_of(*v)->items[k]) is Text,
            forall|k: int| 0 <= k < i ==> (#[trigger] out@[k])@ == json_of(*v)->items[k]->s,
        decreases arr.len() - i,
    {
        match value_as_str(&arr[i]) {
            Some(s) => out.push(s.to_owned()),
            None => {
                proof {
                    assert(!(json_of(*v)->items[i as int] is Text));
                }
                return None;
            },
        }
        i += 1;
    }
    proof {
        assert(out.deep_view() =~= command_seq_of(json_of(*v))->0);
    }
    Some(out)
}

/// Loads a package script from the text of its document file: parses the
/// text, validates the shape, and returns the validated script or the first
/// applicable error.
pub fn load_script(text: &str) -> (r: Result<PackageScript, ScriptError>)
    ensures
        match load_result(text@) {
            Ok(m) => r matches Ok(s) && s.model() == m,
            Err(e) => r matches Err(actual) && actual == e,
        },
{
    let doc = match parse_document(text) {
        Ok(v) => v,
        Err(_) => {
            return Err(ScriptError::ParseError);
        },
    };
    if !value_is_object(&doc) {
        return Err(ScriptError::InvalidShape);
    }
    let install = match value_get(&doc, "install") {
        Some(iv) => {
            if !value_is_object(iv) {
                return Err(ScriptError::InvalidShape);
            }
            let cloning = match value_get(iv, "cloning") {
                Some(cv) => match extract_commands(cv) {
                    Some(c) => Some(c),
                    None => {
                        return Err(ScriptError::InvalidShape);
                    },
                },
                None => None,
            };
            let building = match value_get(iv, "building") {
                Some(bv) => match extract_commands(bv) {
                    Some(b) => Some(b),
                    None => {
                        return Err(ScriptError::InvalidShape);
                    },
                },
                None => None,
            };
            Some(InstallSteps { cloning, building })
        },
        None => None,
    };
    let uninstall = match value_get(&doc, "uninstall") {
        Some(uv) => match extract_commands(uv) {
            Some(u) => Some(u),
            None => {
                return Err(ScriptError::InvalidShape);
            },
        },
        None => None,
    };
    let script = PackageScript { install, uninstall };
    proof {
        assert(Some(script.model()) == script_model_of(json_text(text@)->0));
    }
    Ok(script)
}

} // verus!
