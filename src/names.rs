use crate::error::Error;
use vstd::prelude::*;
use vstd::string::StrSliceExecFns;

verus! {

/// The platform family whose file-name rules apply.
#[derive(Debug, Clone, Copy, PartialEq, Eq, Structural)]
pub enum Family {
    Unix,
    Windows,
}

/// The forbidden characters of a family, in the order in which they are scanned.
pub open spec fn illegal_chars(f: Family) -> Seq<char> {
    match f {
        Family::Windows => seq!['<', '>', ':', '"', '/', '\\', '|', '?', '*'],
        Family::Unix => seq!['/', ':', '\0'],
    }
}

/// CON, PRN, AUX, NUL, COM1 to COM9 and LPT1 to LPT9, compared case-sensitively.
pub open spec fn is_device_name(s: Seq<char>) -> bool {
    ||| s == seq!['C', 'O', 'N']
    ||| s == seq!['P', 'R', 'N']
    ||| s == seq!['A', 'U', 'X']
    ||| s == seq!['N', 'U', 'L']
    ||| (s.len() == 4 && ((s[0] == 'C' && s[1] == 'O' && s[2] == 'M') || (s[0] == 'L' && s[1]
        == 'P' && s[2] == 'T')) && '1' <= s[3] <= '9')
}

pub open spec fn is_reserved(name: Seq<char>, f: Family) -> bool {
    f == Family::Windows && is_device_name(name)
}

/// `list[i]` is the first member of the list that occurs anywhere in the name.
pub open spec fn first_hit(list: Seq<char>, name: Seq<char>, i: int) -> bool {
    &&& 0 <= i < list.len()
    &&& name.contains(list[i])
    &&& forall|j: int| 0 <= j < i ==> !name.contains(#[trigger] list[j])
}

/// No member of the list occurs in the name.
pub open spec fn no_hit(list: Seq<char>, name: Seq<char>) -> bool {
    forall|j: int| 0 <= j < list.len() ==> !name.contains(#[trigger] list[j])
}

/// The outcome that validating `name` under the rules of family `f` must have.
pub open spec fn legality(name: Seq<char>, f: Family, r: Result<(), Error>) -> bool {
    match r {
        Ok(()) => !is_reserved(name, f) && no_hit(illegal_chars(f), name),
        Err(Error::IllegalName(n)) => is_reserved(name, f) && n@ == name,
        Err(Error::IllegalCharacter(c)) => {
            &&& !is_reserved(name, f)
            &&& exists|i: int| first_hit(illegal_chars(f), name, i) && illegal_chars(f)[i] == c
        },
        Err(_) => false,
    }
}

proof fn device_names_are_alphanumeric(s: Seq<char>, k: int)
    requires
        is_device_name(s),
        0 <= k < s.len(),
    ensures
        ('A' <= s[k] <= 'Z') || ('0' <= s[k] <= '9'),
{
}

/// A name that holds a forbidden character is rejected with `IllegalCharacter`,
/// and the character reported is the first member of the scan list that the
/// name holds, wherever in the name it stands.
pub proof fn illegal_character_is_reported(name: Seq<char>, f: Family, r: Result<(), Error>)
    requires
        legality(name, f, r),
        exists|i: int| 0 <= i < illegal_chars(f).len() && name.contains(#[trigger] illegal_chars(f)[i]),
    ensures
        r matches Err(Error::IllegalCharacter(c)) && exists|i: int|
            first_hit(illegal_chars(f), name, i) && illegal_chars(f)[i] == c,
{
    let i = choose|i: int| 0 <= i < illegal_chars(f).len() && name.contains(#[trigger] illegal_chars(f)[i]);
    if is_reserved(name, f) {
        let k = choose|k: int| 0 <= k < name.len() && name[k] == illegal_chars(f)[i];
        device_names_are_alphanumeric(name, k);
    }
}

/// A name with no forbidden character that is no reserved device name passes.
pub proof fn clean_name_is_accepted(name: Seq<char>, f: Family, r: Result<(), Error>)
    requires
        legality(name, f, r),
        no_hit(illegal_chars(f), name),
        !is_reserved(name, f),
    ensures
        r is Ok,
{
}

fn illegal_list(f: Family) -> (r: Vec<char>)
    ensures
        r@ == illegal_chars(f),
{
    match f {
        Family::Windows => vec!['<', '>', ':', '"', '/', '\\', '|', '?', '*'],
        Family::Unix => vec!['/', ':', '\0'],
    }
}

/// Whether `c` occurs anywhere in `name`.
fn holds_char(name: &str, c: char) -> (r: bool)
    ensures
        r == name@.contains(c),
{
    let n = name.unicode_len();
    let mut i: usize = 0;
    while i < n
        invariant
            n == name@.len(),
            i <= n,
            forall|j: int| 0 <= j < i ==> name@[j] != c,
        decreases n - i,
    {
        if name.get_char(i) == c {
            return true;
        }
        i += 1;
    }
    false
}

fn is_device(name: &str) -> (r: bool)
    ensures
        r == is_device_name(name@),
{
    let n = name.unicode_len();
    if n == 3 {
        let a = name.get_char(0);
        let b = name.get_char(1);
        let c = name.get_char(2);
        let r = (a == 'C' && b == 'O' && c == 'N') || (a == 'P' && b == 'R' && c == 'N') || (a
            == 'A' && b == 'U' && c == 'X') || (a == 'N' && b == 'U' && c == 'L');
        proof {
            if a == 'C' && b == 'O' && c == 'N' {
                assert(name@ =~= seq!['C', 'O', 'N']);
            }
            if a == 'P' && b == 'R' && c == 'N' {
                assert(name@ =~= seq!['P', 'R', 'N']);
            }
            if a == 'A' && b == 'U' && c == 'X' {
                assert(name@ =~= seq!['A', 'U', 'X']);
            }
            if a == 'N' && b == 'U' && c == 'L' {
                assert(name@ =~= seq!['N', 'U', 'L']);
            }
        }
        r
    } else if n == 4 {
        let a = name.get_char(0);
        let b = name.get_char(1);
        let c = name.get_char(2);
        let d = name.get_char(3);
        ((a == 'C' && b == 'O' && c == 'M') || (a == 'L' && b == 'P' && c == 'T')) && '1' <= d
            && d <= '9'
    } else {
        false
    }
}

/// Checks `name` against the rules of family `f`: a reserved device name first
/// (Windows family only), then each forbidden character in scan order.
pub fn file_name_is_legal_on(name: &str, f: Family) -> (r: Result<(), Error>)
    ensures
        legality(name@, f, r),
{
    if f == Family::Windows && is_device(name) {
        return Err(Error::IllegalName(name.to_string()));
    }
    let list = illegal_list(f);
    let mut i: usize = 0;
    while i < list.len()
        invariant
            list@ == illegal_chars(f),
            i <= list@.len(),
            forall|j: int| 0 <= j < i ==> !name@.contains(#[trigger] list@[j]),
        decreases list.len() - i,
    {
        let c = list[i];
        if holds_char(name, c) {
            assert(first_hit(illegal_chars(f), name@, i as int));
            return Err(Error::IllegalCharacter(c));
        }
        i += 1;
    }
    Ok(())
}

/// Relies on std::path::MAIN_SEPARATOR: the path separator of the target platform.
#[verifier::external_body]
fn main_separator() -> (r: char) {
    std::path::MAIN_SEPARATOR
}

/// The family of the platform the library was built for: the Windows family
/// separates path components with a backslash.
pub fn host_family() -> Family {
    if main_separator() == '\\' {
        Family::Windows
    } else {
        Family::Unix
    }
}

/// Checks `name` against the rules of the host platform's family.
pub fn file_name_is_legal(name: &str) -> (r: Result<(), Error>)
    ensures
        legality(name@, Family::Unix, r) || legality(name@, Family::Windows, r),
{
    file_name_is_legal_on(name, host_family())
}

} // verus!
