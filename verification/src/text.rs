//! Text capabilities the client leans on: shell-escaping a command-line
//! token and encoding text as the platform's wide (UTF-16) representation.

use vstd::prelude::*;

verus! {

/// The character sequence the command-line escaper returns for `s`.
pub uninterp spec fn win_escaped_of(s: Seq<char>) -> Seq<char>;

/// The UTF-16 code units that encode `s`.
pub uninterp spec fn utf16_of(s: Seq<char>) -> Seq<u16>;

/// Holds when `s` contains no nul character at all.
pub open spec fn no_nul(s: Seq<char>) -> bool {
    forall|i: int| 0 <= i < s.len() ==> s[i] != '\0'
}

/// Holds when `s` contains no nul character before its final position; a
/// trailing nul merges with the terminator of a nul-terminated encoding.
pub open spec fn no_interior_nul(s: Seq<char>) -> bool {
    forall|i: int| 0 <= i < s.len() - 1 ==> s[i] != '\0'
}

/// Holds when the command-line escaper must quote `s`: it is empty or holds
/// a double quote, tab, newline or space.
pub open spec fn needs_cmd_quoting(s: Seq<char>) -> bool {
    s.len() == 0 || exists|i: int|
        0 <= i < s.len() && (s[i] == '"' || s[i] == '\t' || s[i] == '\n' || s[i] == ' ')
}

/// Relies on shell_escape::windows::escape: quotes a token under the
/// manager's command-line rules. A token that needs no quoting comes back
/// unchanged, and the escaper only ever inserts quotes and backslashes, so
/// it never introduces a nul character.
#[verifier::external_body]
pub(crate) fn escape_token(s: &str) -> (r: String)
    ensures
        r@ == win_escaped_of(s@),
        !needs_cmd_quoting(s@) ==> r@ == s@,
        no_nul(s@) ==> no_nul(r@),
{
    shell_escape::windows::escape(std::borrow::Cow::Borrowed(s)).into_owned()
}

/// Relies on widestring::U16CString::from_str: encodes `s` as UTF-16,
/// rejecting a nul value anywhere but the final position; the error carries
/// the position of the offending nul unit.
#[verifier::external_body]
pub(crate) fn utf16_encode(s: &str) -> (r: Result<Vec<u16>, usize>)
    ensures
        r is Ok <==> no_interior_nul(s@),
        r matches Ok(v) ==> v@ == utf16_of(s@),
{
    match widestring::U16CString::from_str(s) {
        Ok(w) => Ok(w.into_vec()),
        Err(e) => Err(e.nul_position()),
    }
}

/// Reports whether `s` is entirely free of nul characters, by probing the
/// wide encoding of `s` with a separator appended: the appended character
/// turns a trailing nul of `s` into an interior one.
pub fn check_no_nul(s: &str) -> (b: bool)
    ensures
        b == no_nul(s@),
{
    let mut probe = String::from_str(s);
    probe.append(" ");
    let r = utf16_encode(probe.as_str());
    proof {
        reveal_strlit(" ");
        assert(probe@ =~= s@ + " "@);
        assert forall|i: int| 0 <= i < probe@.len() - 1 implies probe@[i] == s@[i] by {}
        assert(no_interior_nul(probe@) == no_nul(s@)) by {
            if no_interior_nul(probe@) {
                assert forall|i: int| 0 <= i < s@.len() implies s@[i] != '\0' by {
                    assert(probe@[i] == s@[i]);
                }
            }
            if no_nul(s@) {
                assert forall|i: int| 0 <= i < probe@.len() - 1 implies probe@[i] != '\0' by {
                    assert(probe@[i] == s@[i]);
                }
            }
        }
    }
    r.is_ok()
}

} // verus!
