//! The enhanced journal flow's pure parts: strict email validation, the
//! command-line grammar, the yes/no prompt's interpretation, and the email
//! templates of the welcome campaign. The prompts, screens and files around
//! them belong to the terminal layer.

use vstd::prelude::*;
use vstd::string::StringExecFns;
use vstd::string::StringSliceAdditionalSpecFns;

verus! {

/// A byte of an email's local part: a letter, a digit, or one of `._%+-`.
pub open spec fn is_local_byte(b: u8) -> bool {
    ||| 65 <= b <= 90  // A-Z
    ||| 97 <= b <= 122  // a-z
    ||| 48 <= b <= 57  // 0-9
    ||| b == 46  // .
    ||| b == 95  // _
    ||| b == 37  // %
    ||| b == 43  // +
    ||| b == 45  // -
}

/// A byte of an email's domain part: a letter, a digit, a dot or a hyphen.
pub open spec fn is_domain_byte(b: u8) -> bool {
    ||| 65 <= b <= 90
    ||| 97 <= b <= 122
    ||| 48 <= b <= 57
    ||| b == 46
    ||| b == 45
}

/// An ASCII letter.
pub open spec fn is_alpha_byte(b: u8) -> bool {
    65 <= b <= 90 || 97 <= b <= 122
}

/// One split of an email into local part, `@`, domain, dot and letter run.
pub open spec fn email_split_at(b: Seq<u8>, at: int, d: int) -> bool {
    &&& 1 <= at
    &&& at + 2 <= d
    &&& d + 3 <= b.len()
    &&& b[at] == 64
    &&& b[d] == 46
    &&& (forall|i: int| 0 <= i < at ==> is_local_byte(#[trigger] b[i]))
    &&& (forall|i: int| at < i < d ==> is_domain_byte(#[trigger] b[i]))
    &&& (forall|i: int| d < i < b.len() ==> is_alpha_byte(#[trigger] b[i]))
}

/// A strict email address: some split into a non-empty local part, an `@`,
/// a non-empty domain, and a final dot followed by at least two letters.
pub open spec fn spec_strict_email(b: Seq<u8>) -> bool {
    exists|at: int, d: int| email_split_at(b, at, d)
}

fn local_byte(b: u8) -> (r: bool)
    ensures
        r == is_local_byte(b),
{
    (65 <= b && b <= 90) || (97 <= b && b <= 122) || (48 <= b && b <= 57) || b == 46 || b == 95
        || b == 37 || b == 43 || b == 45
}

fn domain_byte(b: u8) -> (r: bool)
    ensures
        r == is_domain_byte(b),
{
    (65 <= b && b <= 90) || (97 <= b && b <= 122) || (48 <= b && b <= 57) || b == 46 || b == 45
}

fn alpha_byte(b: u8) -> (r: bool)
    ensures
        r == is_alpha_byte(b),
{
    (65 <= b && b <= 90) || (97 <= b && b <= 122)
}

/// Validates an email address against the strict grammar: local part, `@`,
/// domain, then a dot and a final run of at least two letters.
pub fn validate_email(email: &str) -> (r: bool)
    ensures
        r == spec_strict_email(email.spec_bytes()),
{
    let bytes = email.as_bytes();
    let n = bytes.len();

    // The `@`: any witness position carries the only `@`, which is also the
    // first, since the local class admits no `@`.
    let mut at: usize = 0;
    while at < n && bytes[at] != 64
        invariant
            at <= n,
            n == bytes@.len(),
            bytes@ == email.spec_bytes(),
            forall|i: int| 0 <= i < at ==> bytes@[i] != 64,
        decreases n - at,
    {
        at = at + 1;
    }
    if at >= n || at == 0 {
        proof {
            assert forall|a: int, d: int| !email_split_at(email.spec_bytes(), a, d) by {
                if email_split_at(email.spec_bytes(), a, d) {
                    if at >= n {
                        assert(bytes@[a] == 64);
                    } else {
                        // at == 0: a >= 1, and every byte before `a` is of
                        // the local class, which has no `@`
                        assert(bytes@[0] == 64);
                        assert(is_local_byte(bytes@[0]));
                    }
                }
            }
        }
        return false;
    }
    let mut k: usize = 0;
    while k < at
        invariant
            k <= at < n,
            1 <= at,
            n == bytes@.len(),
            bytes@ == email.spec_bytes(),
            bytes@[at as int] == 64,
            forall|i: int| 0 <= i < k ==> is_local_byte(#[trigger] bytes@[i]),
            forall|i: int| 0 <= i < at ==> bytes@[i] != 64,
        decreases at - k,
    {
        if !local_byte(bytes[k]) {
            proof {
                assert forall|a: int, dd: int| !email_split_at(email.spec_bytes(), a, dd) by {
                    if email_split_at(email.spec_bytes(), a, dd) {
                        lemma_witness_is_first_at(email.spec_bytes(), at as int, a, dd);
                        assert(is_local_byte(bytes@[k as int]));
                    }
                }
            }
            return false;
        }
        k = k + 1;
    }

    // The final dot: any witness dot is the last one, since the letter run
    // after it admits no dot.
    let mut dot_pos: Option<usize> = None;
    let mut k: usize = at + 1;
    while k < n
        invariant
            at + 1 <= k <= n,
            1 <= at < n,
            n == bytes@.len(),
            bytes@ == email.spec_bytes(),
            bytes@[at as int] == 64,
            forall|i: int| 0 <= i < at ==> bytes@[i] != 64,
            match dot_pos {
                Some(p) => at < p < k && bytes@[p as int] == 46 && (forall|i: int|
                    p < i < k ==> bytes@[i] != 46),
                None => forall|i: int| at < i < k ==> bytes@[i] != 46,
            },
        decreases n - k,
    {
        if bytes[k] == 46 {
            dot_pos = Some(k);
        }
        k = k + 1;
    }
    let d = match dot_pos {
        Some(p) => p,
        None => {
            proof {
                assert forall|a: int, dd: int| !email_split_at(email.spec_bytes(), a, dd) by {
                    if email_split_at(email.spec_bytes(), a, dd) {
                        lemma_witness_is_first_at(email.spec_bytes(), at as int, a, dd);
                        assert(bytes@[dd] == 46);
                    }
                }
            }
            return false;
        },
    };
    if d - at < 2 || n - d < 3 {
        proof {
            assert forall|a: int, dd: int| !email_split_at(email.spec_bytes(), a, dd) by {
                if email_split_at(email.spec_bytes(), a, dd) {
                    lemma_witness_is_first_at(email.spec_bytes(), at as int, a, dd);
                    lemma_witness_is_last_dot(email.spec_bytes(), a, dd, d as int);
                }
            }
        }
        return false;
    }
    let mut k: usize = at + 1;
    while k < d
        invariant
            at < k <= d < n,
            1 <= at,
            at + 2 <= d,
            d + 3 <= n,
            n == bytes@.len(),
            bytes@ == email.spec_bytes(),
            bytes@[at as int] == 64,
            forall|i: int| at < i < k ==> is_domain_byte(#[trigger] bytes@[i]),
            bytes@[d as int] == 46,
            forall|i: int| d < i < n ==> bytes@[i] != 46,
            forall|i: int| 0 <= i < at ==> bytes@[i] != 64,
        decreases d - k,
    {
        if !domain_byte(bytes[k]) {
            proof {
                assert forall|a: int, dd: int| !email_split_at(email.spec_bytes(), a, dd) by {
                    if email_split_at(email.spec_bytes(), a, dd) {
                        lemma_witness_is_first_at(email.spec_bytes(), at as int, a, dd);
                        lemma_witness_is_last_dot(email.spec_bytes(), a, dd, d as int);
                        assert(is_domain_byte(bytes@[k as int]));
                    }
                }
            }
            return false;
        }
        k = k + 1;
    }
    let mut k: usize = d + 1;
    while k < n
        invariant
            d < k <= n,
            at + 2 <= d,
            d + 3 <= n,
            at < n,
            n == bytes@.len(),
            bytes@ == email.spec_bytes(),
            forall|i: int| d < i < k ==> is_alpha_byte(#[trigger] bytes@[i]),
            bytes@[d as int] == 46,
            forall|i: int| d < i < n ==> bytes@[i] != 46,
            forall|i: int| 0 <= i < at ==> bytes@[i] != 64,
            bytes@[at as int] == 64,
        decreases n - k,
    {
        if !alpha_byte(bytes[k]) {
            proof {
                assert forall|a: int, dd: int| !email_split_at(email.spec_bytes(), a, dd) by {
                    if email_split_at(email.spec_bytes(), a, dd) {
                        lemma_witness_is_first_at(email.spec_bytes(), at as int, a, dd);
                        lemma_witness_is_last_dot(email.spec_bytes(), a, dd, d as int);
                        assert(is_alpha_byte(bytes@[k as int]));
                    }
                }
            }
            return false;
        }
        k = k + 1;
    }
    proof {
        assert(email_split_at(email.spec_bytes(), at as int, d as int));
    }
    true
}

/// In a valid split the `@` is the first `@` of the string.
proof fn lemma_witness_is_first_at(b: Seq<u8>, first: int, a: int, dd: int)
    requires
        0 <= first < b.len(),
        b[first] == 64,
        forall|i: int| 0 <= i < first ==> b[i] != 64,
        email_split_at(b, a, dd),
    ensures
        a == first,
{
    if a < first {
        assert(b[a] == 64);
    } else if a > first {
        assert(is_local_byte(b[first]));
    }
}

/// In a valid split the dot is the last dot of the string.
proof fn lemma_witness_is_last_dot(b: Seq<u8>, a: int, dd: int, last: int)
    requires
        email_split_at(b, a, dd),
        0 <= last < b.len(),
        b[last] == 46,
        forall|i: int| last < i < b.len() ==> b[i] != 46,
    ensures
        dd == last,
{
    if dd < last {
        assert(is_alpha_byte(b[last]));
    } else if dd > last {
        assert(b[dd] != 46);
    }
}

/// The commands the journal accepts on its command line.
#[derive(Debug, Clone, Copy, PartialEq, Eq, Structural)]
pub enum Command {
    Authenticate,
    Help,
    Version,
}

/// How the command line was read: the command, and whether the usage banner
/// is shown first because no explicit command matched.
pub struct ParsedCommand {
    pub command: Command,
    pub show_usage: bool,
}

/// The command words are pairwise distinct, so matching one settles the
/// others.
proof fn lemma_command_words_distinct()
    ensures
        "authenticate"@ != "help"@,
        "authenticate"@ != "--help"@,
        "authenticate"@ != "-h"@,
        "authenticate"@ != "version"@,
        "authenticate"@ != "--version"@,
        "authenticate"@ != "-v"@,
        "help"@ != "version"@,
        "help"@ != "--version"@,
        "help"@ != "-v"@,
        "--help"@ != "version"@,
        "--help"@ != "--version"@,
        "--help"@ != "-v"@,
        "-h"@ != "version"@,
        "-h"@ != "--version"@,
        "-h"@ != "-v"@,
{
    broadcast use vstd::string::group_string_axioms;

    reveal_strlit("authenticate");
    reveal_strlit("help");
    reveal_strlit("--help");
    reveal_strlit("-h");
    reveal_strlit("version");
    reveal_strlit("--version");
    reveal_strlit("-v");
    assert("authenticate"@.len() == 12);
    assert("help"@.len() == 4);
    assert("--help"@.len() == 6);
    assert("-h"@.len() == 2);
    assert("version"@.len() == 7);
    assert("--version"@.len() == 9);
    assert("-v"@.len() == 2);
    assert("-h"@[1] != "-v"@[1]);
}

/// Reads the command line: `authenticate login` authenticates, `help`,
/// `--help` and `-h` show the help, `version`, `--version` and `-v` the
/// version; anything else shows the usage banner and then authenticates.
pub fn parse_command(args: &Vec<String>) -> (r: ParsedCommand)
    ensures
        args@.len() > 2 && args@[1]@ == "authenticate"@ && args@[2]@ == "login"@ ==> r.command
            == Command::Authenticate && !r.show_usage,
        args@.len() > 1 && (args@[1]@ == "help"@ || args@[1]@ == "--help"@ || args@[1]@ == "-h"@)
            ==> r.command == Command::Help && !r.show_usage,
        args@.len() > 1 && (args@[1]@ == "version"@ || args@[1]@ == "--version"@ || args@[1]@
            == "-v"@) ==> r.command == Command::Version && !r.show_usage,
        r.show_usage ==> r.command == Command::Authenticate,
{
    proof {
        lemma_command_words_distinct();
    }
    if args.len() > 1 {
        let first = &args[1];
        if crate::input::strings_equal(first.as_str(), "authenticate") {
            if args.len() > 2 && crate::input::strings_equal(args[2].as_str(), "login") {
                return ParsedCommand { command: Command::Authenticate, show_usage: false };
            }
        } else if crate::input::strings_equal(first.as_str(), "help") || crate::input::strings_equal(
            first.as_str(),
            "--help",
        ) || crate::input::strings_equal(first.as_str(), "-h") {
            return ParsedCommand { command: Command::Help, show_usage: false };
        } else if crate::input::strings_equal(first.as_str(), "version")
            || crate::input::strings_equal(first.as_str(), "--version")
            || crate::input::strings_equal(first.as_str(), "-v") {
            return ParsedCommand { command: Command::Version, show_usage: false };
        }
    }
    ParsedCommand { command: Command::Authenticate, show_usage: true }
}

/// How a line answers a yes/no prompt.
#[derive(Debug, Clone, Copy, PartialEq, Eq, Structural)]
pub enum YesNoDecision {
    Yes,
    No,
    /// Neither: the prompt asks again.
    Invalid,
}

/// An ASCII whitespace byte.
pub open spec fn is_ws_byte(b: u8) -> bool {
    b == 32 || b == 9 || b == 10 || b == 13
}

/// The bytes with leading whitespace removed.
pub open spec fn spec_trim_front(b: Seq<u8>) -> Seq<u8>
    decreases b.len(),
{
    if b.len() == 0 {
        b
    } else if is_ws_byte(b[0]) {
        spec_trim_front(b.drop_first())
    } else {
        b
    }
}

/// The bytes with trailing whitespace removed.
pub open spec fn spec_trim_back(b: Seq<u8>) -> Seq<u8>
    decreases b.len(),
{
    if b.len() == 0 {
        b
    } else if is_ws_byte(b.last()) {
        spec_trim_back(b.drop_last())
    } else {
        b
    }
}

/// The bytes with whitespace removed at both ends.
pub open spec fn spec_trimmed(b: Seq<u8>) -> Seq<u8> {
    spec_trim_back(spec_trim_front(b))
}

/// The byte range of the trimmed content: start and end of the bytes that
/// remain after ASCII whitespace is removed at both ends.
pub(crate) fn trimmed_range(s: &str) -> (r: (usize, usize))
    ensures
        r.0 <= r.1 <= s.spec_bytes().len(),
        s.spec_bytes().subrange(r.0 as int, r.1 as int) == spec_trimmed(s.spec_bytes()),
{
    let bytes = s.as_bytes();
    let n = bytes.len();
    proof {
        assert(bytes@.subrange(0, n as int) =~= bytes@);
    }
    let mut f: usize = 0;
    while f < n && (bytes[f] == 32 || bytes[f] == 9 || bytes[f] == 10 || bytes[f] == 13)
        invariant
            f <= n,
            n == bytes@.len(),
            bytes@ == s.spec_bytes(),
            spec_trim_front(bytes@) == spec_trim_front(bytes@.subrange(f as int, n as int)),
        decreases n - f,
    {
        proof {
            assert(bytes@.subrange(f as int, n as int).drop_first() =~= bytes@.subrange(
                f + 1,
                n as int,
            ));
        }
        f = f + 1;
    }
    proof {
        if f < n {
            assert(spec_trim_front(bytes@) =~= bytes@.subrange(f as int, n as int));
        } else {
            assert(spec_trim_front(bytes@) =~= bytes@.subrange(f as int, n as int));
        }
    }
    let mut l: usize = n;
    while l > f && (bytes[l - 1] == 32 || bytes[l - 1] == 9 || bytes[l - 1] == 10 || bytes[l - 1]
        == 13)
        invariant
            f <= l <= n,
            n == bytes@.len(),
            bytes@ == s.spec_bytes(),
            spec_trim_front(bytes@) == bytes@.subrange(f as int, n as int),
            spec_trim_back(bytes@.subrange(f as int, n as int)) == spec_trim_back(
                bytes@.subrange(f as int, l as int),
            ),
        decreases l,
    {
        proof {
            assert(bytes@.subrange(f as int, l as int).drop_last() =~= bytes@.subrange(
                f as int,
                l - 1,
            ));
        }
        l = l - 1;
    }
    proof {
        assert(spec_trim_back(bytes@.subrange(f as int, l as int)) =~= bytes@.subrange(
            f as int,
            l as int,
        ));
    }
    (f, l)
}

/// Lower-cases an ASCII letter byte; everything else is kept.
pub open spec fn lower_byte(b: u8) -> u8 {
    if 65 <= b <= 90 {
        (b + 32) as u8
    } else {
        b
    }
}

/// The trimmed bytes, lower-cased.
pub open spec fn spec_trimmed_lower(b: Seq<u8>) -> Seq<u8> {
    spec_trimmed(b).map_values(|x: u8| lower_byte(x))
}

/// Whether the trimmed, lower-cased input is the given byte word of up to
/// three bytes (`m` of them used).
fn trimmed_lower_is(s: &str, f: usize, l: usize, m: usize, b0: u8, b1: u8, b2: u8) -> (r: bool)
    requires
        f <= l <= s.spec_bytes().len(),
        s.spec_bytes().subrange(f as int, l as int) == spec_trimmed(s.spec_bytes()),
        1 <= m <= 3,
    ensures
        r == (spec_trimmed_lower(s.spec_bytes()) == if m == 1 {
            seq![b0]
        } else if m == 2 {
            seq![b0, b1]
        } else {
            seq![b0, b1, b2]
        }),
{
    let bytes = s.as_bytes();
    let ghost t = spec_trimmed_lower(s.spec_bytes());
    proof {
        assert(t.len() == l - f);
        assert(forall|j: int|
            0 <= j < t.len() ==> t[j] == lower_byte(#[trigger] s.spec_bytes()[f + j]));
    }
    if l - f != m {
        return false;
    }
    let mut k: usize = 0;
    let mut same = true;
    while k < m
        invariant
            k <= m,
            f + m == l <= s.spec_bytes().len(),
            bytes@ == s.spec_bytes(),
            t == spec_trimmed_lower(s.spec_bytes()),
            t.len() == m,
            1 <= m <= 3,
            forall|j: int| 0 <= j < t.len() ==> t[j] == lower_byte(#[trigger] bytes@[f + j]),
            same == forall|j: int|
                0 <= j < k ==> t[j] == (if j == 0 {
                    b0
                } else if j == 1 {
                    b1
                } else {
                    b2
                }),
        decreases m - k,
    {
        let b = bytes[f + k];
        let lb: u8 = if 65 <= b && b <= 90 {
            b + 32
        } else {
            b
        };
        let w = if k == 0 {
            b0
        } else if k == 1 {
            b1
        } else {
            b2
        };
        if lb != w {
            same = false;
        }
        k = k + 1;
    }
    proof {
        let word = if m == 1 {
            seq![b0]
        } else if m == 2 {
            seq![b0, b1]
        } else {
            seq![b0, b1, b2]
        };
        if same {
            assert(t =~= word);
        } else {
            assert(t != word);
        }
    }
    same
}

/// Reads a line typed at the yes/no prompt: after ASCII trimming and
/// lower-casing, `y`, `yes` and the empty line mean yes, `n` and `no` mean
/// no, and anything else asks again.
pub fn interpret_yes_no(input: &str) -> (r: YesNoDecision)
    ensures
        ({
            let t = spec_trimmed_lower(input.spec_bytes());
            // 121 'y', 101 'e', 115 's', 110 'n', 111 'o'
            &&& (r == YesNoDecision::Yes <==> (t == seq![121u8] || t == seq![121u8, 101u8, 115u8]
                || t.len() == 0))
            &&& (r == YesNoDecision::No <==> (t == seq![110u8] || t == seq![110u8, 111u8]))
        }),
{
    let (f, l) = trimmed_range(input);
    proof {
        assert(spec_trimmed_lower(input.spec_bytes()).len() == l - f);
        assert(seq![121u8].len() == 1 && seq![121u8][0] == 121u8);
        assert(seq![110u8].len() == 1 && seq![110u8][0] == 110u8);
        assert(seq![110u8, 111u8].len() == 2 && seq![110u8, 111u8][0] == 110u8);
        assert(seq![121u8, 101u8, 115u8].len() == 3 && seq![121u8, 101u8, 115u8][0] == 121u8);
    }
    if l == f || trimmed_lower_is(input, f, l, 1, 121, 0, 0) || trimmed_lower_is(
        input,
        f,
        l,
        3,
        121,
        101,
        115,
    ) {
        YesNoDecision::Yes
    } else if trimmed_lower_is(input, f, l, 1, 110, 0, 0) || trimmed_lower_is(
        input,
        f,
        l,
        2,
        110,
        111,
        0,
    ) {
        YesNoDecision::No
    } else {
        YesNoDecision::Invalid
    }
}

/// The welcome email up to the recipient's name.
pub open spec fn welcome_opening() -> Seq<char> {
    "<!DOCTYPE html>\n<html lang=\"en\">\n<head>\n    <meta charset=\"UTF-8\">\n    <meta name=\"viewport\" content=\"width=device-width, initial-scale=1.0\">\n    <title>Welcome to Journal</title>\n    <style>\n        body { font-family: Arial, sans-serif; line-height: 1.6; color: #333; }\n        .container { max-width: 600px; margin: 0 auto; padding: 20px; }\n        .header { background: #667eea; color: white; padding: 30px; text-align: center; }\n        .content { background: white; padding: 30px; }\n        .button { background: #667eea; color: white; padding: 12px 24px; text-decoration: none; border-radius: 5px; }\n    </style>\n</head>\n<body>\n    <div class=\"container\">\n        <div class=\"header\">\n            <h1>🎉 Welcome to Journal!</h1>\n        </div>\n        <div class=\"content\">\n            <h2>Hello "@
}

/// The welcome email between the name and the account address.
pub open spec fn welcome_account_lead() -> Seq<char> {
    "!</h2>\n            <p>Welcome to Journal! Your account ("@
}

/// The welcome email after the account address.
pub open spec fn welcome_body() -> Seq<char> {
    ") is now active and ready to use.</p>\n            <h3>🚀 What's Next?</h3>\n            <ul>\n                <li><strong>Complete your profile</strong> - Add a photo and bio</li>\n                <li><strong>Create your first entry</strong> - Start journaling today</li>\n                <li><strong>Explore features</strong> - Discover what Journal can do</li>\n            </ul>\n            <p style=\"text-align: center;\">\n                <a href=\"#\" class=\"button\">Get Started</a>\n            </p>\n            <p>Happy journaling!<br><strong>The Journal Team</strong></p>\n        </div>\n    </div>\n</body>\n</html>"@
}

/// The welcome email for a new account: the fixed template around the
/// recipient's name and address.
pub open spec fn spec_welcome_email(name: Seq<char>, email: Seq<char>) -> Seq<char> {
    welcome_opening() + name + welcome_account_lead() + email + welcome_body()
}

/// Builds the welcome email for a new account.
pub fn create_welcome_email_content(name: &str, email: &str) -> (r: String)
    ensures
        r@ == spec_welcome_email(name@, email@),
{
    let mut content = String::new();
    content.append("<!DOCTYPE html>\n<html lang=\"en\">\n<head>\n    <meta charset=\"UTF-8\">\n    <meta name=\"viewport\" content=\"width=device-width, initial-scale=1.0\">\n    <title>Welcome to Journal</title>\n    <style>\n        body { font-family: Arial, sans-serif; line-height: 1.6; color: #333; }\n        .container { max-width: 600px; margin: 0 auto; padding: 20px; }\n        .header { background: #667eea; color: white; padding: 30px; text-align: center; }\n        .content { background: white; padding: 30px; }\n        .button { background: #667eea; color: white; padding: 12px 24px; text-decoration: none; border-radius: 5px; }\n    </style>\n</head>\n<body>\n    <div class=\"container\">\n        <div class=\"header\">\n            <h1>🎉 Welcome to Journal!</h1>\n        </div>\n        <div class=\"content\">\n            <h2>Hello ");
    content.append(name);
    content.append("!</h2>\n            <p>Welcome to Journal! Your account (");
    content.append(email);
    content.append(") is now active and ready to use.</p>\n            <h3>🚀 What's Next?</h3>\n            <ul>\n                <li><strong>Complete your profile</strong> - Add a photo and bio</li>\n                <li><strong>Create your first entry</strong> - Start journaling today</li>\n                <li><strong>Explore features</strong> - Discover what Journal can do</li>\n            </ul>\n            <p style=\"text-align: center;\">\n                <a href=\"#\" class=\"button\">Get Started</a>\n            </p>\n            <p>Happy journaling!<br><strong>The Journal Team</strong></p>\n        </div>\n    </div>\n</body>\n</html>");
    proof {
        assert(content@ =~= spec_welcome_email(name@, email@));
    }
    content
}

/// The getting-started email up to the recipient's name.
pub open spec fn getting_started_opening() -> Seq<char> {
    "<!DOCTYPE html>\n<html lang=\"en\">\n<head>\n    <meta charset=\"UTF-8\">\n    <meta name=\"viewport\" content=\"width=device-width, initial-scale=1.0\">\n    <title>Getting Started with Journal</title>\n    <style>\n        body { font-family: Arial, sans-serif; line-height: 1.6; color: #333; }\n        .container { max-width: 600px; margin: 0 auto; padding: 20px; }\n        .header { background: #764ba2; color: white; padding: 30px; text-align: center; }\n        .content { background: white; padding: 30px; }\n        .tip { background: #f8f9fa; border-left: 4px solid #667eea; padding: 15px; margin: 15px 0; }\n        .button { background: #764ba2; color: white; padding: 12px 24px; text-decoration: none; border-radius: 5px; }\n    </style>\n</head>\n<body>\n    <div class=\"container\">\n        <div class=\"header\">\n            <h1>📚 Getting Started Guide</h1>\n        </div>\n        <div class=\"content\">\n            <h2>Hi "@
}

/// The getting-started email after the name.
pub open spec fn getting_started_body() -> Seq<char> {
    "!</h2>\n            <p>Ready to make the most of your Journal experience? Here are some tips:</p>\n            <div class=\"tip\">\n                <h3>💡 Pro Tip #1: Daily Habits</h3>\n                <p>Set aside 10 minutes each day for journaling. Consistency is key!</p>\n            </div>\n            <div class=\"tip\">\n                <h3>🎯 Pro Tip #2: Use Prompts</h3>\n                <p>Try our daily prompts to spark inspiration and reflection.</p>\n            </div>\n            <p style=\"text-align: center;\">\n                <a href=\"#\" class=\"button\">Explore Features</a>\n            </p>\n            <p>Questions? Contact our help center for assistance.</p>\n        </div>\n    </div>\n</body>\n</html>"@
}

/// The getting-started email: the fixed template around the recipient's
/// name.
pub open spec fn spec_getting_started(name: Seq<char>) -> Seq<char> {
    getting_started_opening() + name + getting_started_body()
}

/// Builds the getting-started email.
pub fn create_getting_started_content(name: &str) -> (r: String)
    ensures
        r@ == spec_getting_started(name@),
{
    let mut content = String::new();
    content.append("<!DOCTYPE html>\n<html lang=\"en\">\n<head>\n    <meta charset=\"UTF-8\">\n    <meta name=\"viewport\" content=\"width=device-width, initial-scale=1.0\">\n    <title>Getting Started with Journal</title>\n    <style>\n        body { font-family: Arial, sans-serif; line-height: 1.6; color: #333; }\n        .container { max-width: 600px; margin: 0 auto; padding: 20px; }\n        .header { background: #764ba2; color: white; padding: 30px; text-align: center; }\n        .content { background: white; padding: 30px; }\n        .tip { background: #f8f9fa; border-left: 4px solid #667eea; padding: 15px; margin: 15px 0; }\n        .button { background: #764ba2; color: white; padding: 12px 24px; text-decoration: none; border-radius: 5px; }\n    </style>\n</head>\n<body>\n    <div class=\"container\">\n        <div class=\"header\">\n            <h1>📚 Getting Started Guide</h1>\n        </div>\n        <div class=\"content\">\n            <h2>Hi ");
    content.append(name);
    content.append("!</h2>\n            <p>Ready to make the most of your Journal experience? Here are some tips:</p>\n            <div class=\"tip\">\n                <h3>💡 Pro Tip #1: Daily Habits</h3>\n                <p>Set aside 10 minutes each day for journaling. Consistency is key!</p>\n            </div>\n            <div class=\"tip\">\n                <h3>🎯 Pro Tip #2: Use Prompts</h3>\n                <p>Try our daily prompts to spark inspiration and reflection.</p>\n            </div>\n            <p style=\"text-align: center;\">\n                <a href=\"#\" class=\"button\">Explore Features</a>\n            </p>\n            <p>Questions? Contact our help center for assistance.</p>\n        </div>\n    </div>\n</body>\n</html>");
    proof {
        assert(content@ =~= spec_getting_started(name@));
    }
    content
}

} // verus!
