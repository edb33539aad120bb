//! Version comparison for the update check.
//!
//! A version string is read as dot-separated decimal components after any
//! leading `v` letters; a component that is not a plain decimal number small
//! enough for 32 bits is skipped. Comparison is componentwise, with missing
//! components read as zero; an update exists exactly when the published
//! version is componentwise newer.

use vstd::prelude::*;

verus! {

/// What an update check reports.
#[derive(Debug, Clone)]
pub struct UpdateCheckResult {
    pub has_update: bool,
    pub current_version: String,
    pub latest_version: Option<String>,
    pub notes: Option<String>,
    pub download_url: Option<String>,
}

/// The characters before the first `stop`, or all of them.
pub open spec fn prefix_before(s: Seq<char>, stop: char) -> Seq<char>
    decreases s.len(),
{
    if s.len() == 0 {
        s
    } else if s[0] == stop {
        Seq::empty()
    } else {
        seq![s[0]] + prefix_before(s.drop_first(), stop)
    }
}

/// The prefix up to the first occurrence of `stop` is `prefix_before`.
proof fn lemma_prefix_before(s: Seq<char>, stop: char, cut: int)
    requires
        0 <= cut <= s.len(),
        forall|j: int| 0 <= j < cut ==> s[j] != stop,
        cut < s.len() ==> s[cut] == stop,
    ensures
        prefix_before(s, stop) == s.subrange(0, cut),
    decreases cut,
{
    if cut == 0 {
        if s.len() == 0 {
            assert(s.subrange(0, 0) =~= s);
        } else {
            assert(s.subrange(0, 0) =~= Seq::<char>::empty());
        }
    } else {
        let rest = s.drop_first();
        assert forall|j: int| 0 <= j < cut - 1 implies rest[j] != stop by {
            assert(rest[j] == s[j + 1]);
        }
        if cut - 1 < rest.len() {
            assert(rest[cut - 1] == s[cut]);
        }
        lemma_prefix_before(rest, stop, cut - 1);
        assert(seq![s[0]] + rest.subrange(0, cut - 1) =~= s.subrange(0, cut));
    }
}

/// A decimal digit.
pub open spec fn is_digit(c: char) -> bool {
    '0' <= c <= '9'
}

/// The number a sequence of digits denotes.
pub open spec fn digits_val(s: Seq<char>) -> nat
    decreases s.len(),
{
    if s.len() == 0 {
        0
    } else {
        (digits_val(s.drop_last()) * 10 + (s.last() as int - '0' as int)) as nat
    }
}

/// A prefix of a digit string never denotes more than the whole.
proof fn lemma_digits_val_prefix_le(s: Seq<char>, j: int)
    requires
        0 <= j <= s.len(),
        forall|k: int| 0 <= k < s.len() ==> is_digit(#[trigger] s[k]),
    ensures
        digits_val(s.subrange(0, j)) <= digits_val(s),
    decreases s.len() - j,
{
    if j == s.len() {
        assert(s.subrange(0, j) =~= s);
    } else {
        assert(s.subrange(0, j + 1).drop_last() =~= s.subrange(0, j));
        assert(digits_val(s.subrange(0, j + 1)) == digits_val(s.subrange(0, j)) * 10 + (s[j] as nat
            - '0' as nat));
        lemma_digits_val_prefix_le(s, j + 1);
    }
}

/// The number a version component denotes: it must be nonempty, all digits,
/// and fit 32 bits, else it is skipped.
pub open spec fn component_val(s: Seq<char>) -> Option<u32> {
    if s.len() > 0 && (forall|k: int| 0 <= k < s.len() ==> is_digit(#[trigger] s[k]))
        && digits_val(s) <= u32::MAX {
        Some(digits_val(s) as u32)
    } else {
        None
    }
}

/// The components a version string denotes, after any leading `v` letters.
pub open spec fn parse_version_spec(s: Seq<char>) -> Seq<u32> {
    parse_components(strip_v(s))
}

/// The string with every leading `v` removed.
pub open spec fn strip_v(s: Seq<char>) -> Seq<char>
    decreases s.len(),
{
    if s.len() > 0 && s[0] == 'v' {
        strip_v(s.drop_first())
    } else {
        s
    }
}

/// A prefix never outgrows its string.
proof fn lemma_prefix_before_len(s: Seq<char>, stop: char)
    ensures
        prefix_before(s, stop).len() <= s.len(),
    decreases s.len(),
{
    if s.len() > 0 && s[0] != stop {
        lemma_prefix_before_len(s.drop_first(), stop);
    }
}

/// The components of a dot-separated string, numeric ones only.
pub open spec fn parse_components(s: Seq<char>) -> Seq<u32>
    decreases s.len(),
    via parse_components_decreases
{
    let seg = prefix_before(s, '.');
    let vals = match component_val(seg) {
        Some(v) => seq![v],
        None => Seq::<u32>::empty(),
    };
    if seg.len() == s.len() {
        vals
    } else {
        vals + parse_components(s.skip(seg.len() as int + 1))
    }
}

#[via_fn]
proof fn parse_components_decreases(s: Seq<char>) {
    lemma_prefix_before_len(s, '.');
}

/// Component `i` of a parsed version, reading past the end as zero.
pub open spec fn vcomp(a: Seq<u32>, i: int) -> u32 {
    if 0 <= i < a.len() {
        a[i]
    } else {
        0
    }
}

/// `b` exceeds `a` at component `i`, and they agree before it.
pub open spec fn newer_at(a: Seq<u32>, b: Seq<u32>, i: int) -> bool {
    &&& 0 <= i < if a.len() > b.len() {
        a.len() as int
    } else {
        b.len() as int
    }
    &&& vcomp(b, i) > vcomp(a, i)
    &&& forall|j: int| 0 <= j < i ==> vcomp(a, j) == vcomp(b, j)
}

/// Whether `b` is newer than `a`: at the first differing component,
/// zero-extended, `b` is larger.
pub open spec fn version_newer(a: Seq<u32>, b: Seq<u32>) -> bool {
    exists|i: int| #[trigger] newer_at(a, b, i)
}

/// Parse one version component; the scan delivered its characters.
fn parse_component(chars: &Vec<char>) -> (r: Option<u32>)
    ensures
        r == component_val(chars@),
{
    let n = chars.len();
    if n == 0 {
        return None;
    }
    let mut val: u32 = 0;
    for j in 0..n
        invariant
            n == chars@.len(),
            forall|k: int| 0 <= k < j ==> is_digit(#[trigger] chars@[k]),
            val == digits_val(chars@.subrange(0, j as int)),
            digits_val(chars@.subrange(0, j as int)) <= u32::MAX,
    {
        let c = chars[j];
        if c < '0' || c > '9' {
            return None;
        }
        let d = (c as u32) - ('0' as u32);
        proof {
            assert(chars@.subrange(0, j + 1).drop_last() =~= chars@.subrange(0, j as int));
            assert(d == chars@[j as int] as nat - '0' as nat);
        }
        if val > (u32::MAX - d) / 10 {
            proof {
                assert(digits_val(chars@.subrange(0, j + 1)) > u32::MAX);
                if forall|k: int| 0 <= k < chars@.len() ==> is_digit(#[trigger] chars@[k]) {
                    lemma_digits_val_prefix_le(chars@, j + 1);
                }
            }
            return None;
        }
        val = val * 10 + d;
    }
    proof {
        assert(chars@.subrange(0, n as int) =~= chars@);
    }
    Some(val)
}

/// Parse a version string into its numeric components.
pub fn parse_version(s: &str) -> (r: Vec<u32>)
    ensures
        r@ == parse_version_spec(s@),
{
    let len = s.unicode_len();
    proof {
        assert(s@.skip(0) =~= s@);
    }
    let mut start: usize = 0;
    while start < len && s.get_char(start) == 'v'
        invariant
            len == s@.len(),
            start <= len,
            strip_v(s@) == strip_v(s@.skip(start as int)),
        decreases len - start,
    {
        proof {
            assert(s@.skip(start as int)[0] == s@[start as int]);
            assert(s@.skip(start as int).drop_first() =~= s@.skip(start + 1));
        }
        start = start + 1;
    }
    proof {
        if start < len {
            assert(s@.skip(start as int)[0] == s@[start as int]);
        }
        assert(strip_v(s@.skip(start as int)) =~= s@.skip(start as int));
    }
    let ghost stripped = s@.skip(start as int);
    let mut out: Vec<u32> = Vec::new();
    let mut p: usize = start;
    let mut done = false;
    while !done
        invariant
            len == s@.len(),
            start <= p <= len,
            !done ==> parse_version_spec(s@) == out@ + parse_components(s@.skip(p as int)),
            done ==> parse_version_spec(s@) == out@,
        decreases len - p + (if done {
            0int
        } else {
            1int
        }),
    {
        // scan the component that starts at p
        let mut q: usize = p;
        let mut chars: Vec<char> = Vec::new();
        while q < len && s.get_char(q) != '.'
            invariant
                len == s@.len(),
                p <= q <= len,
                chars@ == s@.subrange(p as int, q as int),
                forall|j: int| p <= j < q ==> s@[j] != '.',
            decreases len - q,
        {
            chars.push(s.get_char(q));
            proof {
                assert(chars@ =~= s@.subrange(p as int, q + 1));
            }
            q = q + 1;
        }
        proof {
            let tail = s@.skip(p as int);
            assert forall|j: int| 0 <= j < q - p implies tail[j] != '.' by {
                assert(tail[j] == s@[j + p]);
            }
            if q < len {
                assert(tail[q - p] == s@[q as int]);
            }
            lemma_prefix_before(tail, '.', q - p);
            assert(tail.subrange(0, q - p) =~= s@.subrange(p as int, q as int));
        }
        let parsed = parse_component(&chars);
        if let Some(v) = parsed {
            out.push(v);
        }
        proof {
            let tail = s@.skip(p as int);
            let seg = prefix_before(tail, '.');
            assert(seg == chars@);
            if q < len {
                assert(seg.len() != tail.len());
                assert(tail.skip(seg.len() as int + 1) =~= s@.skip(q + 1));
            } else {
                assert(seg.len() == tail.len());
            }
        }
        if q < len {
            p = q + 1;
        } else {
            done = true;
        }
    }
    out
}

/// Whether `latest` is a newer version than `current`.
pub fn compare_versions(current: &str, latest: &str) -> (r: bool)
    ensures
        r == version_newer(parse_version_spec(current@), parse_version_spec(latest@)),
{
    let a = parse_version(current);
    let b = parse_version(latest);
    let ghost av = a@;
    let ghost bv = b@;
    let n = if a.len() > b.len() {
        a.len()
    } else {
        b.len()
    };
    for i in 0..n
        invariant
            av == a@,
            bv == b@,
            av == parse_version_spec(current@),
            bv == parse_version_spec(latest@),
            n == if av.len() > bv.len() {
                av.len()
            } else {
                bv.len()
            },
            forall|j: int| 0 <= j < i ==> vcomp(av, j) == vcomp(bv, j),
    {
        let x: u32 = if i < a.len() {
            a[i]
        } else {
            0
        };
        let y: u32 = if i < b.len() {
            b[i]
        } else {
            0
        };
        if y > x {
            proof {
                assert(vcomp(bv, i as int) > vcomp(av, i as int));
                assert(newer_at(av, bv, i as int));
            }
            return true;
        }
        if y < x {
            proof {
                assert forall|w: int| !(#[trigger] newer_at(av, bv, w)) by {
                    if 0 <= w < n && vcomp(bv, w) > vcomp(av, w) {
                        if w > i as int {
                            assert(vcomp(av, i as int) != vcomp(bv, i as int));
                        }
                    }
                }
            }
            return false;
        }
    }
    proof {
        assert forall|w: int| !(#[trigger] newer_at(av, bv, w)) by {
            if 0 <= w < n {
                assert(vcomp(av, w) == vcomp(bv, w));
            }
        }
    }
    false
}

} // verus!
