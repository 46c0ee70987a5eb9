//! Text helpers: hexadecimal colour parsing, decimal rendering, the phase
//! banner line, and the fixed message lines the tool prints.

use vstd::prelude::*;

verus! {

/// Whether a character is a hexadecimal digit.
pub open spec fn is_hex_digit(c: char) -> bool {
    ('0' <= c && c <= '9') || ('a' <= c && c <= 'f') || ('A' <= c && c <= 'F')
}

/// The numeric value of one hexadecimal digit character.
pub open spec fn hex_digit_value(c: char) -> nat
    recommends
        is_hex_digit(c),
{
    if '0' <= c && c <= '9' {
        (c as nat - '0' as nat) as nat
    } else if 'a' <= c && c <= 'f' {
        (c as nat - 'a' as nat + 10) as nat
    } else {
        (c as nat - 'A' as nat + 10) as nat
    }
}

/// The value of a two-digit hexadecimal channel, high digit first.
pub open spec fn hex_pair_value(hi: char, lo: char) -> nat {
    hex_digit_value(hi) * 16 + hex_digit_value(lo)
}

/// Whether the first six characters of a colour string are hexadecimal digits.
pub open spec fn is_hex_colour(s: Seq<char>) -> bool {
    s.len() >= 6 && forall|i: int| 0 <= i < 6 ==> is_hex_digit(#[trigger] s[i])
}

fn hex_digit(c: char) -> (d: u8)
    requires
        is_hex_digit(c),
    ensures
        d == hex_digit_value(c),
        d < 16,
{
    let x = c as u32;
    if x >= '0' as u32 && x <= '9' as u32 {
        (x - '0' as u32) as u8
    } else if x >= 'a' as u32 && x <= 'f' as u32 {
        (x - 'a' as u32 + 10) as u8
    } else {
        (x - 'A' as u32 + 10) as u8
    }
}

/// Decodes a six-digit hexadecimal colour such as the phase colours into its
/// red, green and blue channels.
pub fn hex_to_rgb(hex: &str) -> (rgb: (u8, u8, u8))
    requires
        is_hex_colour(hex@),
    ensures
        rgb.0 == hex_pair_value(hex@[0], hex@[1]),
        rgb.1 == hex_pair_value(hex@[2], hex@[3]),
        rgb.2 == hex_pair_value(hex@[4], hex@[5]),
{
    let r = 16 * hex_digit(hex.get_char(0)) + hex_digit(hex.get_char(1));
    let g = 16 * hex_digit(hex.get_char(2)) + hex_digit(hex.get_char(3));
    let b = 16 * hex_digit(hex.get_char(4)) + hex_digit(hex.get_char(5));
    (r, g, b)
}

/// The decimal rendering of a natural number, most significant digit first,
/// with no leading zeros (a single `'0'` for zero).
pub open spec fn dec_digits(n: nat) -> Seq<char>
    decreases n,
{
    if n < 10 {
        seq![digit_char(n)]
    } else {
        dec_digits(n / 10) + seq![digit_char(n % 10)]
    }
}

/// The character for one decimal digit.
pub open spec fn digit_char(n: nat) -> char
    recommends
        n < 10,
{
    if n == 0 {
        '0'
    } else if n == 1 {
        '1'
    } else if n == 2 {
        '2'
    } else if n == 3 {
        '3'
    } else if n == 4 {
        '4'
    } else if n == 5 {
        '5'
    } else if n == 6 {
        '6'
    } else if n == 7 {
        '7'
    } else if n == 8 {
        '8'
    } else {
        '9'
    }
}

fn digit_str(d: u8) -> (r: &'static str)
    requires
        d < 10,
    ensures
        r@ == seq![digit_char(d as nat)],
{
    let s = match d {
        0 => "0",
        1 => "1",
        2 => "2",
        3 => "3",
        4 => "4",
        5 => "5",
        6 => "6",
        7 => "7",
        8 => "8",
        _ => "9",
    };
    proof {
        reveal_strlit("0");
        reveal_strlit("1");
        reveal_strlit("2");
        reveal_strlit("3");
        reveal_strlit("4");
        reveal_strlit("5");
        reveal_strlit("6");
        reveal_strlit("7");
        reveal_strlit("8");
        reveal_strlit("9");
        assert(s@ =~= seq![digit_char(d as nat)]);
    }
    s
}

/// Renders a channel value in decimal, as the colour escape sequence needs it.
pub fn u8_to_dec(n: u8) -> (r: String)
    ensures
        r@ == dec_digits(n as nat),
    decreases n,
{
    if n < 10 {
        String::from_str(digit_str(n))
    } else {
        let r = u8_to_dec(n / 10).concat(digit_str(n % 10));
        proof {
            assert(r@ =~= dec_digits(n as nat));
        }
        r
    }
}

/// The truecolour escape sequence selecting the given foreground colour.
pub open spec fn colour_code_text(r: nat, g: nat, b: nat) -> Seq<char> {
    "\u{1b}[38;2;"@ + dec_digits(r) + ";"@ + dec_digits(g) + ";"@ + dec_digits(b) + "m"@
}

/// The rule of heavy horizontal bars that closes a phase banner.
pub open spec fn banner_rule_text() -> Seq<char> {
    "\u{2501}\u{2501}\u{2501}\u{2501}\u{2501}\u{2501}\u{2501}\u{2501}\u{2501}\u{2501}\u{2501}\u{2501}\u{2501}\u{2501}\u{2501}\u{2501}\u{2501}\u{2501}\u{2501}\u{2501}\u{2501}\u{2501}\u{2501}\u{2501}\u{2501}"@
}

/// A phase banner: the coloured phase name followed by a rule of bars, with
/// the colour reset at the end.
pub open spec fn banner_text(name: Seq<char>, r: nat, g: nat, b: nat) -> Seq<char> {
    colour_code_text(r, g, b) + name + banner_rule_text() + "\u{1b}[0m"@
}

/// Builds the banner line announcing one phase, from the phase name and its
/// six-digit hexadecimal colour.
pub fn phase_banner(name: &str, colour: &str) -> (out: String)
    requires
        is_hex_colour(colour@),
    ensures
        out@ == banner_text(
            name@,
            hex_pair_value(colour@[0], colour@[1]),
            hex_pair_value(colour@[2], colour@[3]),
            hex_pair_value(colour@[4], colour@[5]),
        ),
{
    let (r, g, b) = hex_to_rgb(colour);
    let mut out = String::from_str("\u{1b}[38;2;");
    out.append(u8_to_dec(r).as_str());
    out.append(";");
    out.append(u8_to_dec(g).as_str());
    out.append(";");
    out.append(u8_to_dec(b).as_str());
    out.append("m");
    out.append(name);
    out.append(
        "\u{2501}\u{2501}\u{2501}\u{2501}\u{2501}\u{2501}\u{2501}\u{2501}\u{2501}\u{2501}\u{2501}\u{2501}\u{2501}\u{2501}\u{2501}\u{2501}\u{2501}\u{2501}\u{2501}\u{2501}\u{2501}\u{2501}\u{2501}\u{2501}\u{2501}",
    );
    out.append("\u{1b}[0m");
    proof {
        assert(out@ =~= banner_text(
            name@,
            hex_pair_value(colour@[0], colour@[1]),
            hex_pair_value(colour@[2], colour@[3]),
            hex_pair_value(colour@[4], colour@[5]),
        ));
    }
    out
}

/// The success line printed after a completed install.
pub open spec fn install_success_text(name: Seq<char>) -> Seq<char> {
    "Installed "@ + name + " successfully!"@
}

/// Builds the install success line for a package.
pub fn install_success_line(name: &str) -> (out: String)
    ensures
        out@ == install_success_text(name@),
{
    let out = String::from_str("Installed ").concat(name).concat(" successfully!");
    proof {
        assert(out@ =~= install_success_text(name@));
    }
    out
}

/// The success line printed after a completed uninstall.
pub open spec fn uninstall_success_text(name: Seq<char>) -> Seq<char> {
    "Uninstalled "@ + name + " successfully!"@
}

/// Builds the uninstall success line for a package.
pub fn uninstall_success_line(name: &str) -> (out: String)
    ensures
        out@ == uninstall_success_text(name@),
{
    let out = String::from_str("Uninstalled ").concat(name).concat(" successfully!");
    proof {
        assert(out@ =~= uninstall_success_text(name@));
    }
    out
}

/// The scripts directory under a home directory.
pub open spec fn scripts_dir_text(home: Seq<char>) -> Seq<char> {
    home + "/.config/pkg/scripts"@
}

/// Builds the scripts directory path under a home directory.
pub fn scripts_dir_path(home: &str) -> (out: String)
    ensures
        out@ == scripts_dir_text(home@),
{
    let out = String::from_str(home).concat("/.config/pkg/scripts");
    proof {
        assert(out@ =~= scripts_dir_text(home@));
    }
    out
}

/// The document file path for a package: the package name, used verbatim,
/// with a `.json` extension under the scripts directory.
pub open spec fn script_path_text(dir: Seq<char>, name: Seq<char>) -> Seq<char> {
    dir + "/"@ + name + ".json"@
}

/// Builds the document file path for a package under the scripts directory.
pub fn script_path(dir: &str, name: &str) -> (out: String)
    ensures
        out@ == script_path_text(dir@, name@),
{
    let out = String::from_str(dir).concat("/").concat(name).concat(".json");
    proof {
        assert(out@ =~= script_path_text(dir@, name@));
    }
    out
}

} // verus!
