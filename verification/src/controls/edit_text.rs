//! `CRLF`/`LF` conversion between Rust strings and a native multi-line edit,
//! which stores `\r\n` line endings.
//!
//! Single-line edits never contain a line break, so these are no-ops for them.

use vstd::prelude::*;
use vstd::std_specs::iter::IteratorSpec;

verus! {

broadcast use vstd::string::group_string_axioms;

/// The native form of `s`: every `\r\n`, lone `\r` and lone `\n` becomes
/// `\r\n`, read left to right.
pub open spec fn to_native_spec(s: Seq<char>) -> Seq<char>
    decreases s.len(),
{
    if s.len() == 0 {
        Seq::empty()
    } else if s[0] == '\r' {
        if s.len() >= 2 && s[1] == '\n' {
            seq!['\r', '\n'] + to_native_spec(s.skip(2))
        } else {
            seq!['\r', '\n'] + to_native_spec(s.skip(1))
        }
    } else if s[0] == '\n' {
        seq!['\r', '\n'] + to_native_spec(s.skip(1))
    } else {
        seq![s[0]] + to_native_spec(s.skip(1))
    }
}

/// The Rust form of native text `s`: every `\r\n`, read left to right, becomes
/// `\n`; every other character is kept.
pub open spec fn from_native_spec(s: Seq<char>) -> Seq<char>
    decreases s.len(),
{
    if s.len() == 0 {
        Seq::empty()
    } else if s.len() >= 2 && s[0] == '\r' && s[1] == '\n' {
        seq!['\n'] + from_native_spec(s.skip(2))
    } else {
        seq![s[0]] + from_native_spec(s.skip(1))
    }
}

/// The characters of `text`, in order.
pub(crate) fn chars_of(text: &str) -> (v: Vec<char>)
    ensures
        v@ == text@,
{
    let mut out: Vec<char> = Vec::new();
    let mut chars = text.chars();
    loop
        invariant
            chars.obeys_prophetic_iter_laws(),
            out@ + chars.remaining() == text@,
            chars.decrease() is Some,
        decreases chars.decrease()->0,
    {
        let ghost before = chars.remaining();
        match chars.next() {
            Some(c) => {
                out.push(c);
                assert(out@ + chars.remaining() =~= text@) by {
                    assert(before =~= seq![c] + chars.remaining());
                }
            },
            None => {
                assert(out@ =~= text@);
                return out;
            },
        }
    }
}

/// Appends `c` to `s` (`String::push`).
#[verifier::external_body]
pub(crate) fn push_char(s: &mut String, c: char)
    ensures
        final(s)@ == old(s)@.push(c),
{
    s.push(c);
}

/// Normalises Rust text (`LF`) into the `CRLF` line endings a native edit
/// stores, first folding any existing `CRLF`/lone `CR` so a round trip is
/// lossless.
pub fn to_native(text: &str) -> (out: String)
    ensures
        out@ == to_native_spec(text@),
{
    let chars = chars_of(text);
    let n = chars.len();
    let mut out = String::new();
    let mut i: usize = 0;
    assert(out@ + to_native_spec(chars@.skip(0)) =~= to_native_spec(text@)) by {
        assert(chars@.skip(0) =~= chars@);
    }
    while i < n
        invariant
            n == chars@.len(),
            chars@ == text@,
            i <= n,
            out@ + to_native_spec(chars@.skip(i as int)) == to_native_spec(text@),
        decreases n - i,
    {
        let ghost rest = chars@.skip(i as int);
        let c = chars[i];
        assert(rest[0] == c);
        if c == '\r' {
            if i + 1 < n && chars[i + 1] == '\n' {
                assert(rest.skip(2) =~= chars@.skip(i + 2));
                push_char(&mut out, '\r');
                push_char(&mut out, '\n');
                i = i + 2;
            } else {
                assert(rest.skip(1) =~= chars@.skip(i + 1));
                push_char(&mut out, '\r');
                push_char(&mut out, '\n');
                i = i + 1;
            }
            assert(out@ + to_native_spec(chars@.skip(i as int)) =~= to_native_spec(text@));
        } else if c == '\n' {
            assert(rest.skip(1) =~= chars@.skip(i + 1));
            push_char(&mut out, '\r');
            push_char(&mut out, '\n');
            i = i + 1;
            assert(out@ + to_native_spec(chars@.skip(i as int)) =~= to_native_spec(text@));
        } else {
            assert(rest.skip(1) =~= chars@.skip(i + 1));
            push_char(&mut out, c);
            i = i + 1;
            assert(out@ + to_native_spec(chars@.skip(i as int)) =~= to_native_spec(text@));
        }
    }
    assert(chars@.skip(n as int) =~= Seq::<char>::empty());
    assert(out@ =~= out@ + to_native_spec(chars@.skip(n as int)));
    out
}

/// Normalises a native edit's `CRLF` text back to Rust's `LF`.
pub fn from_native(text: &str) -> (out: String)
    ensures
        out@ == from_native_spec(text@),
{
    let chars = chars_of(text);
    let n = chars.len();
    let mut out = String::new();
    let mut i: usize = 0;
    assert(out@ + from_native_spec(chars@.skip(0)) =~= from_native_spec(text@)) by {
        assert(chars@.skip(0) =~= chars@);
    }
    while i < n
        invariant
            n == chars@.len(),
            chars@ == text@,
            i <= n,
            out@ + from_native_spec(chars@.skip(i as int)) == from_native_spec(text@),
        decreases n - i,
    {
        let ghost rest = chars@.skip(i as int);
        let c = chars[i];
        assert(rest[0] == c);
        if c == '\r' && i + 1 < n && chars[i + 1] == '\n' {
            assert(rest.skip(2) =~= chars@.skip(i + 2));
            push_char(&mut out, '\n');
            i = i + 2;
        } else {
            assert(rest.skip(1) =~= chars@.skip(i + 1));
            push_char(&mut out, c);
            i = i + 1;
        }
        assert(out@ + from_native_spec(chars@.skip(i as int)) =~= from_native_spec(text@));
    }
    assert(chars@.skip(n as int) =~= Seq::<char>::empty());
    assert(out@ =~= out@ + from_native_spec(chars@.skip(n as int)));
    out
}

/// Whether `n` has only `\r\n` line endings: every `\r` is followed by a
/// `\n` and every `\n` preceded by a `\r`.
pub open spec fn crlf_only(n: Seq<char>) -> bool {
    &&& forall|i: int| 0 <= i < n.len() && #[trigger] n[i] == '\r' ==> i + 1 < n.len() && n[i + 1] == '\n'
    &&& forall|i: int| 0 <= i < n.len() && #[trigger] n[i] == '\n' ==> i > 0 && n[i - 1] == '\r'
}

/// `s` with every `\r\n`, and then every lone `\r`, replaced by `\n`.
pub open spec fn unix_form(s: Seq<char>) -> Seq<char>
    decreases s.len(),
{
    if s.len() == 0 {
        Seq::empty()
    } else if s[0] == '\r' {
        if s.len() >= 2 && s[1] == '\n' {
            seq!['\n'] + unix_form(s.skip(2))
        } else {
            seq!['\n'] + unix_form(s.skip(1))
        }
    } else {
        seq![s[0]] + unix_form(s.skip(1))
    }
}

proof fn lemma_crlf_only_concat(p: Seq<char>, t: Seq<char>)
    requires
        crlf_only(p),
        crlf_only(t),
    ensures
        crlf_only(p + t),
{
    let n = p + t;
    assert forall|i: int| 0 <= i < n.len() && #[trigger] n[i] == '\r' implies i + 1 < n.len() && n[i + 1] == '\n' by {
        if i < p.len() {
            assert(p[i] == '\r');
        } else {
            assert(t[i - p.len()] == '\r');
        }
    }
    assert forall|i: int| 0 <= i < n.len() && #[trigger] n[i] == '\n' implies i > 0 && n[i - 1] == '\r' by {
        if i < p.len() {
            assert(p[i] == '\n');
        } else {
            assert(t[i - p.len()] == '\n');
        }
    }
}

/// The native form has only `\r\n` line endings: every `\r` in it is
/// followed by `\n`, and every `\n` preceded by `\r`.
pub proof fn lemma_native_is_crlf_only(s: Seq<char>)
    ensures
        crlf_only(to_native_spec(s)),
    decreases s.len(),
{
    if s.len() > 0 {
        let rest = if s[0] == '\r' && s.len() >= 2 && s[1] == '\n' { s.skip(2) } else { s.skip(1) };
        lemma_native_is_crlf_only(rest);
        let t = to_native_spec(rest);
        if s[0] == '\r' || s[0] == '\n' {
            let p = seq!['\r', '\n'];
            assert(crlf_only(p)) by {
                assert forall|i: int| 0 <= i < p.len() && #[trigger] p[i] == '\n' implies i > 0 && p[i - 1] == '\r' by {
                    if i == 0 {
                        assert(p[0] == '\r');
                    }
                }
            }
            lemma_crlf_only_concat(p, t);
        } else {
            let p = seq![s[0]];
            assert(crlf_only(p)) by {
                assert forall|i: int| 0 <= i < p.len() && #[trigger] p[i] == '\n' implies i > 0 && p[i - 1] == '\r' by {
                    assert(p[i] == s[0]);
                }
                assert forall|i: int| 0 <= i < p.len() && #[trigger] p[i] == '\r' implies i + 1 < p.len() && p[i + 1] == '\n' by {
                    assert(p[i] == s[0]);
                }
            }
            lemma_crlf_only_concat(p, t);
        }
    }
}

/// Reading the native form back gives `s` with every `\r\n`, and then
/// every lone `\r`, turned into `\n`.
pub proof fn lemma_native_reads_back_unix(s: Seq<char>)
    ensures
        from_native_spec(to_native_spec(s)) == unix_form(s),
    decreases s.len(),
{
    if s.len() > 0 {
        let rest = if s[0] == '\r' && s.len() >= 2 && s[1] == '\n' { s.skip(2) } else { s.skip(1) };
        lemma_native_reads_back_unix(rest);
        let t = to_native_spec(rest);
        if s[0] == '\r' || s[0] == '\n' {
            let full = seq!['\r', '\n'] + t;
            assert(full.skip(2) =~= t);
            assert(from_native_spec(full) == seq!['\n'] + from_native_spec(t));
        } else {
            let full = seq![s[0]] + t;
            assert(full.skip(1) =~= t);
            assert(from_native_spec(full) == seq![s[0]] + from_native_spec(t));
        }
    }
}

/// Text without a carriage return survives the trip to the native edit and
/// back unchanged.
pub proof fn lemma_round_trip(s: Seq<char>)
    requires
        !s.contains('\r'),
    ensures
        from_native_spec(to_native_spec(s)) == s,
    decreases s.len(),
{
    if s.len() > 0 {
        let rest = s.skip(1);
        assert(!rest.contains('\r')) by {
            if rest.contains('\r') {
                let k = choose|k: int| 0 <= k < rest.len() && rest[k] == '\r';
                assert(s[k + 1] == '\r');
            }
        }
        lemma_round_trip(rest);
        assert(s[0] != '\r') by {
            assert(s.contains(s[0]));
        }
        let t = to_native_spec(rest);
        if s[0] == '\n' {
            let full = seq!['\r', '\n'] + t;
            assert(full.skip(2) =~= t);
            assert(from_native_spec(full) == seq!['\n'] + from_native_spec(t));
        } else {
            let full = seq![s[0]] + t;
            assert(full.skip(1) =~= t);
            assert(from_native_spec(full) == seq![s[0]] + from_native_spec(t));
        }
        assert(s =~= seq![s[0]] + rest);
    }
}

/// Converting to the native form twice changes nothing more: the native form
/// has only `\r\n` line endings.
pub proof fn lemma_to_native_idempotent(s: Seq<char>)
    ensures
        to_native_spec(to_native_spec(s)) == to_native_spec(s),
    decreases s.len(),
{
    if s.len() > 0 {
        if s[0] == '\r' && s.len() >= 2 && s[1] == '\n' {
            lemma_to_native_idempotent(s.skip(2));
            let t = to_native_spec(s.skip(2));
            let full = seq!['\r', '\n'] + t;
            assert(full.skip(2) =~= t);
        } else {
            lemma_to_native_idempotent(s.skip(1));
            let t = to_native_spec(s.skip(1));
            if s[0] == '\r' || s[0] == '\n' {
                let full = seq!['\r', '\n'] + t;
                assert(full.skip(2) =~= t);
            } else {
                let full = seq![s[0]] + t;
                assert(full.skip(1) =~= t);
            }
        }
    }
}

} // verus!
