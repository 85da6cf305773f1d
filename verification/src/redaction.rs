//! Scrubbing credentials out of text before it can reach a log event or an
//! error message.
use vstd::prelude::*;
use crate::text::{chars_of, contains, matches_at, replace, replace_exec, string_from_chars};

verus! {

/// The fixed marker every redacted secret is replaced with: `<redacted>`.
pub open spec fn redaction_marker() -> Seq<char> {
    seq!['<', 'r', 'e', 'd', 'a', 'c', 't', 'e', 'd', '>']
}

/// A secret the marker is able to hide: not empty, holding neither of the
/// marker's brackets, and not a piece of the marker's own word.
pub open spec fn hideable(secret: Seq<char>) -> bool {
    &&& secret.len() > 0
    &&& forall|k: int| 0 <= k < secret.len() ==> secret[k] != '<' && secret[k] != '>'
    &&& !contains(redaction_marker().subrange(1, 9), secret)
}

/// `text` after every secret of `secrets` has been redacted, first to last.
pub open spec fn redact_all_spec(text: Seq<char>, secrets: Seq<Seq<char>>) -> Seq<char>
    decreases secrets.len(),
{
    if secrets.len() == 0 {
        text
    } else {
        replace(redact_all_spec(text, secrets.drop_last()), secrets.last(), redaction_marker())
    }
}

/// Replaces every occurrence of `secret` in `text` with `<redacted>`.
pub fn redact(text: &str, secret: &str) -> (r: String)
    ensures
        r@ == replace(text@, secret@, redaction_marker()),
{
    let t = chars_of(text);
    let s = chars_of(secret);
    let m = vec!['<', 'r', 'e', 'd', 'a', 'c', 't', 'e', 'd', '>'];
    assert(m@ =~= redaction_marker());
    let out = replace_exec(t.as_slice(), s.as_slice(), m.as_slice());
    string_from_chars(out.as_slice())
}

/// [`redact`] against every secret of `secrets`, in order.
pub fn redact_all(text: &str, secrets: &[&str]) -> (r: String)
    ensures
        r@ == redact_all_spec(text@, secrets@.map_values(|s: &str| s@)),
{
    let ghost views = secrets@.map_values(|s: &str| s@);
    let mut acc = text.to_owned();
    let mut k: usize = 0;
    while k < secrets.len()
        invariant
            0 <= k <= secrets@.len(),
            views == secrets@.map_values(|s: &str| s@),
            acc@ == redact_all_spec(text@, views.take(k as int)),
        decreases secrets.len() - k,
    {
        let next = redact(acc.as_str(), secrets[k]);
        assert(views.take(k + 1).drop_last() =~= views.take(k as int));
        acc = next;
        k += 1;
    }
    assert(views.take(secrets@.len() as int) =~= views);
    acc
}

/// An occurrence of `s` past the first `a.len()` positions of `a + r` is an
/// occurrence in `r`.
proof fn lemma_shift_match(a: Seq<char>, r: Seq<char>, s: Seq<char>, i: int)
    requires
        matches_at(a + r, s, i),
        i >= a.len(),
    ensures
        matches_at(r, s, i - a.len()),
{
    assert((a + r).subrange(i, i + s.len()) =~= r.subrange(i - a.len(), i - a.len() + s.len()));
}

/// An occurrence of `s` in `t[d..]` is an occurrence in `t`.
proof fn lemma_skip_match(t: Seq<char>, s: Seq<char>, d: int, j: int)
    requires
        0 <= d <= t.len(),
        matches_at(t.skip(d), s, j),
    ensures
        matches_at(t, s, j + d),
{
    assert(t.skip(d).subrange(j, j + s.len()) =~= t.subrange(j + d, j + d + s.len()));
}

/// No hideable secret can occur at a position that starts inside the marker.
proof fn lemma_marker_blocks(r: Seq<char>, s: Seq<char>, i: int)
    requires
        hideable(s),
        0 <= i < redaction_marker().len(),
    ensures
        !matches_at(redaction_marker() + r, s, i),
{
    let m = redaction_marker();
    let w = m + r;
    if matches_at(w, s, i) {
        assert(w.subrange(i, i + s.len()) == s);
        if i == 0 {
            assert(s[0] == w[0]);
        } else if i + s.len() <= 9 {
            let inner = m.subrange(1, 9);
            assert(inner.subrange(i - 1, i - 1 + s.len()) =~= w.subrange(i, i + s.len()));
            assert(matches_at(inner, s, i - 1));
        } else {
            let k = 9 - i;
            assert(s[k] == w.subrange(i, i + s.len())[k]);
            assert(w[9] == '>');
        }
    }
}

/// Until the first `<`, a replacement's output is a verbatim copy of its input.
proof fn lemma_plain_prefix(t: Seq<char>, p: Seq<char>, k: int)
    requires
        0 <= k <= replace(t, p, redaction_marker()).len(),
        forall|j: int| 0 <= j < k ==> replace(t, p, redaction_marker())[j] != '<',
    ensures
        k <= t.len(),
        replace(t, p, redaction_marker()).subrange(0, k) == t.subrange(0, k),
    decreases t.len(),
{
    let m = redaction_marker();
    let r = replace(t, p, m);
    if k == 0 {
        assert(r.subrange(0, 0) =~= t.subrange(0, 0));
    } else if p.len() == 0 {
        assert(r[0] == m[0]);
    } else if t.len() == 0 {
    } else if matches_at(t, p, 0) {
        assert(r[0] == m[0]);
    } else {
        let r2 = replace(t.skip(1), p, m);
        assert(r == seq![t[0]] + r2);
        assert forall|j: int| 0 <= j < k - 1 implies r2[j] != '<' by {
            assert(r2[j] == r[j + 1]);
        }
        lemma_plain_prefix(t.skip(1), p, k - 1);
        assert(r.subrange(0, k) =~= seq![t[0]] + r2.subrange(0, k - 1));
        assert(t.subrange(0, k) =~= seq![t[0]] + t.skip(1).subrange(0, k - 1));
    }
}

/// An occurrence of `s` at the very start of `[c] + replace(u, p, ..)` is an
/// occurrence at the start of `[c] + u`.
proof fn lemma_front_match(c: char, u: Seq<char>, p: Seq<char>, s: Seq<char>)
    requires
        hideable(s),
        matches_at(seq![c] + replace(u, p, redaction_marker()), s, 0),
    ensures
        matches_at(seq![c] + u, s, 0),
{
    let r2 = replace(u, p, redaction_marker());
    let w = seq![c] + r2;
    assert(w.subrange(0, s.len() as int) == s);
    assert forall|j: int| 0 <= j < s.len() - 1 implies r2[j] != '<' by {
        assert(r2[j] == w[j + 1]);
        assert(s[j + 1] == w.subrange(0, s.len() as int)[j + 1]);
    }
    lemma_plain_prefix(u, p, s.len() - 1);
    assert((seq![c] + u).subrange(0, s.len() as int) =~= seq![c] + u.subrange(
        0,
        s.len() - 1,
    ));
    assert(w.subrange(0, s.len() as int) =~= seq![c] + r2.subrange(0, s.len() - 1));
}

/// Redacting a hideable secret leaves no occurrence of it behind.
pub proof fn lemma_replace_hides(t: Seq<char>, s: Seq<char>)
    requires
        hideable(s),
    ensures
        !contains(replace(t, s, redaction_marker()), s),
    decreases t.len(),
{
    let m = redaction_marker();
    let r = replace(t, s, m);
    if t.len() == 0 {
        assert forall|i: int| !matches_at(r, s, i) by {}
    } else if matches_at(t, s, 0) {
        let r2 = replace(t.skip(s.len() as int), s, m);
        lemma_replace_hides(t.skip(s.len() as int), s);
        assert forall|i: int| !matches_at(r, s, i) by {
            if matches_at(r, s, i) {
                if i >= m.len() {
                    lemma_shift_match(m, r2, s, i);
                } else {
                    lemma_marker_blocks(r2, s, i);
                }
            }
        }
    } else {
        let r2 = replace(t.skip(1), s, m);
        lemma_replace_hides(t.skip(1), s);
        assert forall|i: int| !matches_at(r, s, i) by {
            if matches_at(r, s, i) {
                if i >= 1 {
                    lemma_shift_match(seq![t[0]], r2, s, i);
                } else {
                    lemma_front_match(t[0], t.skip(1), s, s);
                    assert(seq![t[0]] + t.skip(1) =~= t);
                }
            }
        }
    }
}

/// Redacting any pattern cannot make a hideable secret appear where it was
/// absent.
pub proof fn lemma_replace_keeps_hidden(t: Seq<char>, p: Seq<char>, s: Seq<char>)
    requires
        hideable(s),
        !contains(t, s),
    ensures
        !contains(replace(t, p, redaction_marker()), s),
    decreases t.len(),
{
    let m = redaction_marker();
    let r = replace(t, p, m);
    if t.len() == 0 {
        if p.len() == 0 {
            assert forall|i: int| !matches_at(r, s, i) by {
                if matches_at(r, s, i) {
                    assert(m + Seq::<char>::empty() =~= m);
                    lemma_marker_blocks(Seq::<char>::empty(), s, i);
                }
            }
        } else {
            assert forall|i: int| !matches_at(r, s, i) by {}
        }
    } else {
        let d: int = if p.len() > 0 && matches_at(t, p, 0) {
            p.len() as int
        } else {
            1
        };
        let u = t.skip(d);
        assert forall|j: int| !matches_at(u, s, j) by {
            if matches_at(u, s, j) {
                lemma_skip_match(t, s, d, j);
            }
        }
        lemma_replace_keeps_hidden(u, p, s);
        let r2 = replace(u, p, m);
        if p.len() == 0 {
            assert(r == m + (seq![t[0]] + r2));
            assert forall|i: int| !matches_at(r, s, i) by {
                if matches_at(r, s, i) {
                    if i < m.len() {
                        lemma_marker_blocks(seq![t[0]] + r2, s, i);
                    } else if i == m.len() {
                        lemma_shift_match(m, seq![t[0]] + r2, s, i);
                        lemma_front_match(t[0], u, p, s);
                        assert(seq![t[0]] + u =~= t);
                    } else {
                        lemma_shift_match(m, seq![t[0]] + r2, s, i);
                        lemma_shift_match(seq![t[0]], r2, s, i - m.len());
                    }
                }
            }
        } else if matches_at(t, p, 0) {
            assert forall|i: int| !matches_at(r, s, i) by {
                if matches_at(r, s, i) {
                    if i >= m.len() {
                        lemma_shift_match(m, r2, s, i);
                    } else {
                        lemma_marker_blocks(r2, s, i);
                    }
                }
            }
        } else {
            assert forall|i: int| !matches_at(r, s, i) by {
                if matches_at(r, s, i) {
                    if i >= 1 {
                        lemma_shift_match(seq![t[0]], r2, s, i);
                    } else {
                        lemma_front_match(t[0], u, p, s);
                        assert(seq![t[0]] + u =~= t);
                    }
                }
            }
        }
    }
}

/// Law: after [`redact`], a hideable secret occurs nowhere in the text — not
/// where it was, and not across a marker's edge.
pub proof fn law_redact_leaves_no_secret(text: Seq<char>, secret: Seq<char>)
    requires
        hideable(secret),
    ensures
        !contains(replace(text, secret, redaction_marker()), secret),
{
    lemma_replace_hides(text, secret);
}

/// Law: after [`redact_all`], none of its hideable secrets occurs in the text,
/// whichever of them appeared and in whatever order they were scrubbed.
pub proof fn law_redact_all_leaves_no_secret(text: Seq<char>, secrets: Seq<Seq<char>>, k: int)
    requires
        0 <= k < secrets.len(),
        hideable(secrets[k]),
    ensures
        !contains(redact_all_spec(text, secrets), secrets[k]),
    decreases secrets.len(),
{
    let last = secrets.len() - 1;
    if k == last {
        lemma_replace_hides(redact_all_spec(text, secrets.drop_last()), secrets[k]);
    } else {
        law_redact_all_leaves_no_secret(text, secrets.drop_last(), k);
        lemma_replace_keeps_hidden(
            redact_all_spec(text, secrets.drop_last()),
            secrets.last(),
            secrets[k],
        );
    }
}

/// Replacing a non-empty pattern that does not occur leaves the text as it
/// was.
proof fn lemma_replace_absent(t: Seq<char>, p: Seq<char>, m: Seq<char>)
    requires
        p.len() > 0,
        !contains(t, p),
    ensures
        replace(t, p, m) == t,
    decreases t.len(),
{
    if t.len() > 0 {
        assert(!matches_at(t, p, 0));
        assert forall|j: int| !matches_at(t.skip(1), p, j) by {
            if matches_at(t.skip(1), p, j) {
                lemma_skip_match(t, p, 1, j);
            }
        }
        lemma_replace_absent(t.skip(1), p, m);
        assert(seq![t[0]] + t.skip(1) =~= t);
    }
}

/// Law: [`redact`] gives back a text in which a non-empty secret does not
/// occur exactly as it was.
pub proof fn law_redact_without_the_secret_changes_nothing(text: Seq<char>, secret: Seq<char>)
    requires
        secret.len() > 0,
        !contains(text, secret),
    ensures
        replace(text, secret, redaction_marker()) == text,
{
    lemma_replace_absent(text, secret, redaction_marker());
}

/// Law: redacting a hideable secret a second time changes nothing.
pub proof fn law_redact_is_idempotent(text: Seq<char>, secret: Seq<char>)
    requires
        hideable(secret),
    ensures
        replace(replace(text, secret, redaction_marker()), secret, redaction_marker())
            == replace(text, secret, redaction_marker()),
{
    let once = replace(text, secret, redaction_marker());
    lemma_replace_hides(text, secret);
    lemma_replace_absent(once, secret, redaction_marker());
}

/// Law: [`redact_all`] is [`redact`] with the first secret, then
/// [`redact_all`] with the rest; with no secrets it is the text itself.
pub proof fn law_redact_all_takes_the_first_secret_first(text: Seq<char>, secrets: Seq<Seq<char>>)
    ensures
        secrets.len() == 0 ==> redact_all_spec(text, secrets) == text,
        secrets.len() > 0 ==> redact_all_spec(text, secrets) == redact_all_spec(
            replace(text, secrets[0], redaction_marker()),
            secrets.skip(1),
        ),
    decreases secrets.len(),
{
    if secrets.len() > 1 {
        let front = secrets.drop_last();
        law_redact_all_takes_the_first_secret_first(text, front);
        assert(front[0] == secrets[0]);
        assert(secrets.skip(1).drop_last() =~= front.skip(1));
        assert(secrets.skip(1).last() == secrets.last());
        let t1 = replace(text, secrets[0], redaction_marker());
        assert(redact_all_spec(t1, secrets.skip(1)) == replace(
            redact_all_spec(t1, front.skip(1)),
            secrets.last(),
            redaction_marker(),
        ));
    } else if secrets.len() == 1 {
        assert(secrets.drop_last() =~= Seq::<Seq<char>>::empty());
        assert(secrets.skip(1) =~= Seq::<Seq<char>>::empty());
        assert(secrets.last() == secrets[0]);
        let t1 = replace(text, secrets[0], redaction_marker());
        assert(redact_all_spec(t1, Seq::<Seq<char>>::empty()) == t1);
        assert(redact_all_spec(text, Seq::<Seq<char>>::empty()) == text);
    }
}

/// What the redacting sink forwards for `line` while its cell holds
/// `secret`: the line with the secret redacted once a non-empty secret is
/// known, the line unchanged before.
pub open spec fn scrubbed_line(line: Seq<char>, secret: Option<Seq<char>>) -> Seq<char> {
    match secret {
        Some(s) => if s.len() > 0 {
            replace(line, s, redaction_marker())
        } else {
            line
        },
        None => line,
    }
}

/// One call of the redacting log sink: scrubs `line` against `secret`, the
/// value the sink's shared cell holds at the moment of the call, and forwards
/// the result to `inner` on `stream`.
pub fn redacting_sink<F: Fn(&str, String)>(inner: &F, secret: Option<&str>, stream: &str, line: String)
    requires
        forall|l: String| call_requires(*inner, (stream, l)),
    ensures
        exists|l: String| l@ == scrubbed_line(line@, match secret {
            Some(s) => Some(s@),
            None => None,
        }) && #[trigger] call_ensures(*inner, (stream, l), ()),
{
    let scrubbed = match secret {
        Some(s) => if !s.is_empty() {
            redact(line.as_str(), s)
        } else {
            line
        },
        None => line,
    };
    inner(stream, scrubbed);
}

} // verus!
