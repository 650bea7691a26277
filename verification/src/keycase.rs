//! Key-case conversion between the wire convention (camelCase) and the
//! host convention (snake_case), stated over character sequences and
//! implemented for single keys.  The convention: going to snake_case, each
//! ASCII capital letter is folded and, except at the start of the key,
//! preceded by an underscore; going to camelCase, each underscore is
//! dropped and the character after it raised to a capital.

use vstd::prelude::*;
use crate::strutil::{is_ascii_upper, is_ascii_lower, to_lower, to_upper, lower_char, upper_char};

verus! {

/// A key already in the host convention: no ASCII capital letter.
pub open spec fn is_snake_key(s: Seq<char>) -> bool {
    forall|i: int| 0 <= i < s.len() ==> !is_ascii_upper(s[i])
}

/// A key already in the wire convention: no underscore.
pub open spec fn is_camel_key(s: Seq<char>) -> bool {
    forall|i: int| 0 <= i < s.len() ==> s[i] != '_'
}

/// The snake_case form of a key suffix; `first` says whether the suffix
/// begins at the start of the key, where no underscore is inserted.
pub open spec fn snake_chars(s: Seq<char>, first: bool) -> Seq<char>
    decreases s,
{
    if s.len() == 0 {
        Seq::empty()
    } else {
        let head = if is_ascii_upper(s[0]) {
            if first {
                seq![to_lower(s[0])]
            } else {
                seq!['_', to_lower(s[0])]
            }
        } else {
            seq![s[0]]
        };
        head + snake_chars(s.drop_first(), false)
    }
}

/// The snake_case form of a whole key.
pub open spec fn snake_key(s: Seq<char>) -> Seq<char> {
    snake_chars(s, true)
}

/// The camelCase form of a key suffix; `boost` says whether an underscore
/// was just dropped, so the next character is raised to a capital.
pub open spec fn camel_chars(s: Seq<char>, boost: bool) -> Seq<char>
    decreases s,
{
    if s.len() == 0 {
        Seq::empty()
    } else if s[0] == '_' {
        camel_chars(s.drop_first(), true)
    } else {
        seq![if boost { to_upper(s[0]) } else { s[0] }] + camel_chars(s.drop_first(), false)
    }
}

/// The camelCase form of a whole key.
pub open spec fn camel_key(s: Seq<char>) -> Seq<char> {
    camel_chars(s, false)
}

/// The snake_case form of a key holds no ASCII capital letter.
pub proof fn lemma_snake_chars_is_snake(s: Seq<char>, first: bool)
    ensures
        is_snake_key(snake_chars(s, first)),
    decreases s,
{
    if s.len() > 0 {
        lemma_snake_chars_is_snake(s.drop_first(), false);
    }
}

/// A key with no ASCII capital letter is left exactly as it was.
pub proof fn lemma_snake_chars_identity(s: Seq<char>, first: bool)
    requires
        is_snake_key(s),
    ensures
        snake_chars(s, first) == s,
    decreases s,
{
    if s.len() == 0 {
        assert(snake_chars(s, first) =~= s);
    } else {
        assert(is_snake_key(s.drop_first()));
        lemma_snake_chars_identity(s.drop_first(), false);
        assert(snake_chars(s, first) =~= s);
    }
}

/// Converting a key to snake_case twice gives the same as converting once.
pub proof fn lemma_snake_key_idempotent(s: Seq<char>)
    ensures
        snake_key(snake_key(s)) == snake_key(s),
{
    lemma_snake_chars_is_snake(s, true);
    lemma_snake_chars_identity(snake_key(s), true);
}

/// The camelCase form of a key holds no underscore.
pub proof fn lemma_camel_chars_is_camel(s: Seq<char>, boost: bool)
    ensures
        is_camel_key(camel_chars(s, boost)),
    decreases s,
{
    if s.len() > 0 {
        if s[0] == '_' {
            lemma_camel_chars_is_camel(s.drop_first(), true);
        } else {
            lemma_camel_chars_is_camel(s.drop_first(), false);
        }
    }
}

/// A key with no underscore is left exactly as it was.
pub proof fn lemma_camel_chars_identity(s: Seq<char>)
    requires
        is_camel_key(s),
    ensures
        camel_chars(s, false) == s,
    decreases s,
{
    if s.len() == 0 {
        assert(camel_chars(s, false) =~= s);
    } else {
        assert(is_camel_key(s.drop_first()));
        lemma_camel_chars_identity(s.drop_first());
        assert(camel_chars(s, false) =~= s);
    }
}

/// Converting a key to camelCase twice gives the same as converting once.
pub proof fn lemma_camel_key_idempotent(s: Seq<char>)
    ensures
        camel_key(camel_key(s)) == camel_key(s),
{
    lemma_camel_chars_is_camel(s, false);
    lemma_camel_chars_identity(camel_key(s));
}

/// A wire-convention key the host convention can carry back unchanged:
/// no underscore, and no capital in the leading position (a leading
/// capital would be folded with no underscore to record it).
pub open spec fn is_reversible_camel_key(s: Seq<char>) -> bool {
    is_camel_key(s) && (s.len() > 0 ==> !is_ascii_upper(s[0]))
}

/// Folding an ASCII capital and raising it again gives the capital back.
proof fn lemma_upper_of_lower(c: char)
    requires
        is_ascii_upper(c),
    ensures
        to_upper(to_lower(c)) == c,
{
}

/// On a key with no underscore, the wire-bound transform undoes the
/// host-bound transform of everything after the leading position.
proof fn lemma_camel_undoes_snake_rest(s: Seq<char>)
    requires
        is_camel_key(s),
    ensures
        camel_chars(snake_chars(s, false), false) == s,
    decreases s,
{
    if s.len() == 0 {
        assert(camel_chars(snake_chars(s, false), false) =~= s);
    } else {
        let c = s[0];
        assert(is_camel_key(s.drop_first()));
        lemma_camel_undoes_snake_rest(s.drop_first());
        let rest = snake_chars(s.drop_first(), false);
        if is_ascii_upper(c) {
            lemma_upper_of_lower(c);
            assert(snake_chars(s, false) == seq!['_', to_lower(c)] + rest);
            assert((seq!['_', to_lower(c)] + rest).drop_first() =~= seq![to_lower(c)] + rest);
            assert((seq![to_lower(c)] + rest).drop_first() =~= rest);
            assert(camel_chars(snake_chars(s, false), false)
                == camel_chars(seq![to_lower(c)] + rest, true));
            assert(camel_chars(seq![to_lower(c)] + rest, true)
                == seq![to_upper(to_lower(c))] + camel_chars(rest, false));
            assert(camel_chars(snake_chars(s, false), false) =~= s);
        } else {
            assert(snake_chars(s, false) == seq![c] + rest);
            assert((seq![c] + rest).drop_first() =~= rest);
            assert(camel_chars(snake_chars(s, false), false) == seq![c] + camel_chars(rest, false));
            assert(camel_chars(snake_chars(s, false), false) =~= s);
        }
    }
}

/// Law: on a key the wire convention can carry back — no underscore, no
/// leading capital — converting to the host convention and back to the
/// wire convention gives the key unchanged.
pub proof fn law_camel_key_undoes_snake_key(s: Seq<char>)
    requires
        is_reversible_camel_key(s),
    ensures
        camel_key(snake_key(s)) == s,
{
    if s.len() == 0 {
        assert(camel_key(snake_key(s)) =~= s);
    } else {
        let c = s[0];
        assert(is_camel_key(s.drop_first()));
        lemma_camel_undoes_snake_rest(s.drop_first());
        let rest = snake_chars(s.drop_first(), false);
        assert(snake_chars(s, true) == seq![c] + rest);
        assert((seq![c] + rest).drop_first() =~= rest);
        assert(camel_key(snake_key(s)) == seq![c] + camel_chars(rest, false));
        assert(camel_key(snake_key(s)) =~= s);
    }
}

/// A host-convention key the wire convention can carry back unchanged:
/// no capital, no leading underscore, and every underscore followed by
/// an ASCII small letter (an underscore anywhere else would be dropped
/// with nothing to record it).
pub open spec fn is_reversible_snake_key(s: Seq<char>) -> bool {
    is_snake_key(s)
    && (s.len() > 0 ==> s[0] != '_')
    && (forall|i: int| 0 <= i < s.len() && #[trigger] s[i] == '_'
            ==> i + 1 < s.len() && is_ascii_lower(s[i + 1]))
}

/// Raising an ASCII small letter and folding it again gives it back.
proof fn lemma_lower_of_upper(c: char)
    requires
        is_ascii_lower(c),
    ensures
        to_lower(to_upper(c)) == c,
{
}

/// On a key the wire convention can carry back, the host-bound transform
/// undoes the wire-bound transform, whatever position the key stands at.
proof fn lemma_snake_undoes_camel(s: Seq<char>, first: bool)
    requires
        is_reversible_snake_key(s),
    ensures
        snake_chars(camel_chars(s, false), first) == s,
    decreases s,
{
    if s.len() == 0 {
        assert(snake_chars(camel_chars(s, false), first) =~= s);
    } else {
        let c = s[0];
        let rest = s.drop_first();
        if rest.len() == 0 || rest[0] != '_' {
            assert(is_reversible_snake_key(rest)) by {
                assert forall|i: int| 0 <= i < rest.len() && #[trigger] rest[i] == '_'
                    implies i + 1 < rest.len() && is_ascii_lower(rest[i + 1]) by {
                    assert(s[i + 1] == rest[i]);
                    assert(s[i + 1] == '_');
                    assert(i + 2 < s.len() && is_ascii_lower(s[i + 2]));
                    assert(rest[i + 1] == s[i + 2]);
                }
            }
            lemma_snake_undoes_camel(rest, false);
            let c2 = camel_chars(rest, false);
            assert(camel_chars(s, false) == seq![c] + c2);
            assert((seq![c] + c2).drop_first() =~= c2);
            assert(snake_chars(seq![c] + c2, first) == seq![c] + snake_chars(c2, false));
            assert(snake_chars(camel_chars(s, false), first) =~= s);
        } else {
            // the key continues `_d`: the underscore is dropped, `d` is
            // raised going out, and folded back behind a new underscore
            // coming home
            let d = s[2];
            assert(s[1] == '_' && is_ascii_lower(d));
            let tail = rest.drop_first();
            assert(tail =~= s.skip(2));
            assert(is_reversible_snake_key(tail)) by {
                assert(tail[0] == d && !is_ascii_upper(d) && d != '_');
                assert forall|i: int| 0 <= i < tail.len() && #[trigger] tail[i] == '_'
                    implies i + 1 < tail.len() && is_ascii_lower(tail[i + 1]) by {
                    assert(s[i + 2] == tail[i]);
                    assert(s[i + 2] == '_');
                    assert(i + 3 < s.len() && is_ascii_lower(s[i + 3]));
                    assert(tail[i + 1] == s[i + 3]);
                }
            }
            lemma_snake_undoes_camel(tail, false);
            lemma_lower_of_upper(d);
            let c2 = camel_chars(tail.drop_first(), false);
            assert(camel_chars(tail, false) == seq![d] + c2);
            // from the induction hypothesis, the suffix after `d` comes
            // back unchanged on its own
            assert((seq![d] + c2).drop_first() =~= c2);
            assert(snake_chars(seq![d] + c2, false) == seq![d] + snake_chars(c2, false));
            assert(snake_chars(c2, false) == tail.drop_first()) by {
                assert((seq![d] + snake_chars(c2, false)).drop_first() =~= snake_chars(c2, false));
                assert((seq![d] + tail.drop_first()).drop_first() =~= tail.drop_first());
                assert(tail =~= seq![d] + tail.drop_first());
            }
            // the whole key: `c`, then the re-inserted underscore pair,
            // then the unchanged suffix
            assert(camel_chars(rest, false) == camel_chars(tail, true));
            assert(camel_chars(tail, true) == seq![to_upper(d)] + c2);
            assert(camel_chars(s, false) == seq![c] + (seq![to_upper(d)] + c2));
            assert((seq![c] + (seq![to_upper(d)] + c2)).drop_first() =~= seq![to_upper(d)] + c2);
            assert((seq![to_upper(d)] + c2).drop_first() =~= c2);
            assert(snake_chars(seq![c] + (seq![to_upper(d)] + c2), first)
                == seq![c] + snake_chars(seq![to_upper(d)] + c2, false));
            assert(snake_chars(seq![to_upper(d)] + c2, false)
                == seq!['_', to_lower(to_upper(d))] + snake_chars(c2, false));
            assert(snake_chars(camel_chars(s, false), first) =~= s);
        }
    }
}

/// Law: on a key the wire convention can carry back — no capital, no
/// leading underscore, every underscore before an ASCII small letter —
/// converting to the wire convention and back to the host convention
/// gives the key unchanged.
pub proof fn law_snake_key_undoes_camel_key(s: Seq<char>)
    requires
        is_reversible_snake_key(s),
    ensures
        snake_key(camel_key(s)) == s,
{
    lemma_snake_undoes_camel(s, true);
}

/// Rewrites one key from the wire convention to the host convention.
pub fn snake_case_key(s: &str) -> (r: String)
    ensures
        r@ == snake_key(s@),
{
    let n = s.unicode_len();
    let mut out = String::new();
    let mut i: usize = 0;
    proof {
        assert(s@.skip(0) =~= s@);
        assert(out@ + snake_chars(s@, true) =~= snake_chars(s@, true));
    }
    while i < n
        invariant
            n == s@.len(),
            0 <= i <= n,
            snake_key(s@) == out@ + snake_chars(s@.skip(i as int), i == 0),
        decreases n - i,
    {
        let c = s.get_char(i);
        proof {
            assert(s@.skip(i as int)[0] == c);
            assert(s@.skip(i as int).drop_first() =~= s@.skip(i + 1));
        }
        if 'A' <= c && c <= 'Z' {
            if i > 0 {
                out.push('_');
            }
            out.push(lower_char(c));
        } else {
            out.push(c);
        }
        i = i + 1;
        proof {
            assert(snake_key(s@) == out@ + snake_chars(s@.skip(i as int), false));
        }
    }
    proof {
        assert(s@.skip(n as int) =~= Seq::empty());
        assert(out@ =~= out@ + snake_chars(s@.skip(n as int), n == 0));
    }
    out
}

/// Rewrites one key from the host convention to the wire convention.
pub fn camel_case_key(s: &str) -> (r: String)
    ensures
        r@ == camel_key(s@),
{
    let n = s.unicode_len();
    let mut out = String::new();
    let mut i: usize = 0;
    let mut boost = false;
    proof {
        assert(s@.skip(0) =~= s@);
        assert(out@ + camel_chars(s@, false) =~= camel_chars(s@, false));
    }
    while i < n
        invariant
            n == s@.len(),
            0 <= i <= n,
            camel_key(s@) == out@ + camel_chars(s@.skip(i as int), boost),
        decreases n - i,
    {
        let c = s.get_char(i);
        proof {
            assert(s@.skip(i as int)[0] == c);
            assert(s@.skip(i as int).drop_first() =~= s@.skip(i + 1));
        }
        if c == '_' {
            boost = true;
        } else {
            if boost {
                out.push(upper_char(c));
            } else {
                out.push(c);
            }
            boost = false;
        }
        i = i + 1;
        proof {
            assert(camel_key(s@) == out@ + camel_chars(s@.skip(i as int), boost));
        }
    }
    proof {
        assert(s@.skip(n as int) =~= Seq::empty());
        assert(out@ =~= out@ + camel_chars(s@.skip(n as int), boost));
    }
    out
}

} // verus!
