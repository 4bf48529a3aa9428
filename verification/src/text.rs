//! Small text operations: joining, trimming white space, and the default
//! display name of a peer.

use vstd::prelude::*;
use vstd::string::*;

verus! {

/// Whether a character has the Unicode `White_Space` property (the set that
/// `char::is_whitespace` tests).
pub open spec fn is_white_space(c: char) -> bool {
    ||| ('\u{9}' <= c && c <= '\u{d}')
    ||| c == ' '
    ||| c == '\u{85}'
    ||| c == '\u{a0}'
    ||| c == '\u{1680}'
    ||| ('\u{2000}' <= c && c <= '\u{200a}')
    ||| c == '\u{2028}'
    ||| c == '\u{2029}'
    ||| c == '\u{202f}'
    ||| c == '\u{205f}'
    ||| c == '\u{3000}'
}

/// Tests the Unicode `White_Space` property.
pub fn white_space(c: char) -> (b: bool)
    ensures
        b == is_white_space(c),
{
    ('\u{9}' <= c && c <= '\u{d}') || c == ' ' || c == '\u{85}' || c == '\u{a0}' || c == '\u{1680}'
        || ('\u{2000}' <= c && c <= '\u{200a}') || c == '\u{2028}' || c == '\u{2029}' || c
        == '\u{202f}' || c == '\u{205f}' || c == '\u{3000}'
}

/// Number of leading white-space characters.
pub open spec fn leading_white(s: Seq<char>) -> nat
    decreases s.len(),
{
    if s.len() > 0 && is_white_space(s[0]) {
        1 + leading_white(s.drop_first())
    } else {
        0
    }
}

/// Number of trailing white-space characters.
pub open spec fn trailing_white(s: Seq<char>) -> nat
    decreases s.len(),
{
    if s.len() > 0 && is_white_space(s.last()) {
        1 + trailing_white(s.drop_last())
    } else {
        0
    }
}

/// The text without its leading and trailing white space.
pub open spec fn spec_trim(s: Seq<char>) -> Seq<char> {
    let front = s.skip(leading_white(s) as int);
    front.take(front.len() - trailing_white(front))
}

proof fn lemma_leading_white(s: Seq<char>, i: int)
    requires
        0 <= i <= s.len(),
        forall|j: int| 0 <= j < i ==> is_white_space(#[trigger] s[j]),
        i == s.len() || !is_white_space(s[i]),
    ensures
        leading_white(s) == i,
    decreases i,
{
    if i > 0 {
        assert forall|j: int| 0 <= j < i - 1 implies is_white_space(
            #[trigger] s.drop_first()[j],
        ) by {
            assert(s.drop_first()[j] == s[j + 1]);
        }
        if i < s.len() {
            assert(s.drop_first()[i - 1] == s[i]);
        }
        lemma_leading_white(s.drop_first(), i - 1);
    }
}

proof fn lemma_trailing_white(s: Seq<char>, e: int)
    requires
        0 <= e <= s.len(),
        forall|j: int| e <= j < s.len() ==> is_white_space(#[trigger] s[j]),
        e == 0 || !is_white_space(s[e - 1]),
    ensures
        trailing_white(s) == s.len() - e,
    decreases s.len() - e,
{
    if e < s.len() {
        let t = s.drop_last();
        assert forall|j: int| e <= j < t.len() implies is_white_space(#[trigger] t[j]) by {
            assert(t[j] == s[j]);
        }
        if e > 0 {
            assert(t[e - 1] == s[e - 1]);
        }
        lemma_trailing_white(t, e);
    }
}

/// Text with no white space anywhere is its own trimmed form.
pub proof fn lemma_trim_without_white(s: Seq<char>)
    requires
        forall|j: int| 0 <= j < s.len() ==> !is_white_space(#[trigger] s[j]),
    ensures
        spec_trim(s) == s,
{
    lemma_leading_white(s, 0);
    assert(s.skip(0) =~= s);
    lemma_trailing_white(s, s.len() as int);
    assert(s.take(s.len() as int) =~= s);
}

/// `prefix` followed by `suffix`.
pub fn join_text(prefix: &str, suffix: &str) -> (joined: String)
    ensures
        joined@ == prefix@ + suffix@,
{
    let mut joined = String::from_str(prefix);
    joined.append(suffix);
    joined
}

/// The text without leading and trailing white space.
pub fn trim_text(s: &str) -> (trimmed: String)
    ensures
        trimmed@ == spec_trim(s@),
{
    let n = s.unicode_len();
    let mut start: usize = 0;
    while start < n && white_space(s.get_char(start))
        invariant
            start <= n,
            n == s@.len(),
            forall|j: int| 0 <= j < start ==> is_white_space(#[trigger] s@[j]),
        decreases n - start,
    {
        start = start + 1;
    }
    proof {
        lemma_leading_white(s@, start as int);
    }
    let mut end: usize = n;
    while end > start && white_space(s.get_char(end - 1))
        invariant
            start <= end <= n,
            n == s@.len(),
            forall|j: int| end <= j < n ==> is_white_space(#[trigger] s@[j]),
        decreases end - start,
    {
        end = end - 1;
    }
    proof {
        let front = s@.skip(start as int);
        assert forall|j: int| end - start <= j < front.len() implies is_white_space(
            #[trigger] front[j],
        ) by {
            assert(front[j] == s@[start + j]);
        }
        if end > start {
            assert(front[end - start - 1] == s@[end - 1]);
        }
        lemma_trailing_white(front, end - start);
        assert(front.take(end - start) =~= s@.subrange(start as int, end as int));
    }
    String::from_str(s.substring_char(start, end))
}

/// Whether a text can stand for a peer id: ASCII, at least five characters
/// (the text of a libp2p peer id always is).
pub open spec fn valid_peer_text(s: Seq<char>) -> bool {
    s.len() >= 5 && forall|i: int| 0 <= i < s.len() ==> (#[trigger] s[i]) as int <= 127
}

/// The display name given to a peer before it tells its own: `@user_`
/// followed by the first five characters of its id.
pub open spec fn default_username(peer_id: Seq<char>) -> Seq<char> {
    "@user_"@ + peer_id.take(5)
}

/// The default display name of a peer.
pub fn default_username_of(peer_id: &String) -> (name: String)
    requires
        valid_peer_text(peer_id@),
    ensures
        name@ == default_username(peer_id@),
{
    let short = peer_id.as_str().substring_char(0, 5);
    join_text("@user_", short)
}

/// `String::push`: appends one character. Trusted: the text afterwards is
/// the text before followed by the character, as the documentation of the
/// standard library says.
#[verifier::external_body]
pub(crate) fn push_char(s: &mut String, c: char)
    ensures
        final(s)@ == old(s)@.push(c),
{
    s.push(c);
}

/// Whether two texts are equal.
pub fn same_text(a: &str, b: &str) -> (same: bool)
    ensures
        same == (a@ == b@),
{
    String::from_str(a) == String::from_str(b)
}

/// Whether `s` begins with `prefix`.
pub fn starts_with_text(s: &str, prefix: &str) -> (starts: bool)
    ensures
        starts == (prefix@.len() <= s@.len() && s@.take(prefix@.len() as int) == prefix@),
{
    let n = s.unicode_len();
    let m = prefix.unicode_len();
    if m > n {
        return false;
    }
    same_text(s.substring_char(0, m), prefix)
}

/// A peer id shortened for display: its first seven and last seven
/// characters around an ellipsis.
pub open spec fn spec_short_peer_id(peer_id: Seq<char>) -> Seq<char> {
    peer_id.take(7) + "..."@ + peer_id.skip(peer_id.len() - 7)
}

/// The shortened display form of a peer id (ASCII, at least seven
/// characters, as the text of a libp2p peer id always is).
pub fn short_peer_id(peer_id: &str) -> (short: String)
    requires
        peer_id@.len() >= 7,
        forall|i: int| 0 <= i < peer_id@.len() ==> (#[trigger] peer_id@[i]) as int <= 127,
    ensures
        short@ == spec_short_peer_id(peer_id@),
{
    let n = peer_id.unicode_len();
    let mut short = join_text(peer_id.substring_char(0, 7), "...");
    short.append(peer_id.substring_char(n - 7, n));
    assert(peer_id@.subrange(n - 7, n as int) =~= peer_id@.skip(n - 7));
    assert(peer_id@.subrange(0, 7) =~= peer_id@.take(7));
    short
}

} // verus!
