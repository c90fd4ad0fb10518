//! Version texts of extensions ("major.minor.patch"), module path depth,
//! and the choice of one extension among several with the same identity.
use crate::error::{ExtensionError, ExtensionResult};
use crate::extension::ExtensionId;
use crate::text::chars_of;
use vstd::prelude::*;
use vstd::string::StringExecFns;

verus! {

/// The fields of a text separated by dots, as `split('.')` gives them.
pub open spec fn split_dot(s: Seq<char>) -> Seq<Seq<char>>
    decreases s.len(),
{
    if s.len() == 0 {
        seq![Seq::empty()]
    } else {
        let p = split_dot(s.drop_last());
        if s.last() == '.' {
            p.push(Seq::empty())
        } else {
            p.update(p.len() - 1, p.last().push(s.last()))
        }
    }
}

/// Whether every character is an ASCII digit.
pub open spec fn all_digits(d: Seq<char>) -> bool {
    forall|i: int| 0 <= i < d.len() ==> '0' <= #[trigger] d[i] <= '9'
}

/// The value of a sequence of decimal digits.
pub open spec fn digits_value(d: Seq<char>) -> nat
    decreases d.len(),
{
    if d.len() == 0 {
        0
    } else {
        digits_value(d.drop_last()) * 10 + ((d.last() as nat) - 48) as nat
    }
}

/// The value `u32::from_str` gives a text: an optional `+`, then one or
/// more decimal digits whose value fits in 32 bits.
pub open spec fn parse_u32_text(t: Seq<char>) -> Option<u32> {
    let d = if t.len() > 0 && t[0] == '+' {
        t.skip(1)
    } else {
        t
    };
    if d.len() > 0 && all_digits(d) && digits_value(d) <= u32::MAX {
        Some(digits_value(d) as u32)
    } else {
        None
    }
}

/// The `k`-th dot-separated field of a version text as a number, zero when
/// it is missing or not a number.
pub open spec fn version_field(v: Seq<char>, k: int) -> u32 {
    let parts = split_dot(v);
    if k < parts.len() {
        match parse_u32_text(parts[k]) {
            Some(x) => x,
            None => 0,
        }
    } else {
        0
    }
}

/// Major, minor and patch numbers of a version text.
pub open spec fn version_triple(v: Seq<char>) -> (u32, u32, u32) {
    (version_field(v, 0), version_field(v, 1), version_field(v, 2))
}

/// Whether version `a` is newer than `b`, comparing major, minor and patch
/// in that order.
pub open spec fn version_newer(a: (u32, u32, u32), b: (u32, u32, u32)) -> bool {
    a.0 > b.0 || (a.0 == b.0 && (a.1 > b.1 || (a.1 == b.1 && a.2 > b.2)))
}

/// Number of non-overlapping `::` in a text, found from the left.
pub open spec fn separator_count(s: Seq<char>) -> nat
    decreases s.len(),
{
    if s.len() < 2 {
        0
    } else if s[0] == ':' && s[1] == ':' {
        1 + separator_count(s.skip(2))
    } else {
        separator_count(s.skip(1))
    }
}

/// Depth of a module path: zero when empty, one more than its `::` count
/// otherwise.
pub open spec fn module_depth(s: Seq<char>) -> nat {
    if s.len() == 0 {
        0
    } else {
        separator_count(s) + 1
    }
}

/// Whether a version text looks like one: it has a digit, and a dot or
/// nothing but digits.
pub open spec fn version_format_ok(v: Seq<char>) -> bool {
    &&& exists|i: int| 0 <= i < v.len() && '0' <= #[trigger] v[i] <= '9'
    &&& (exists|i: int| 0 <= i < v.len() && #[trigger] v[i] == '.') || all_digits(v)
}

/// Lexicographic order of texts by character.
pub open spec fn text_less(a: Seq<char>, b: Seq<char>) -> bool
    decreases a.len(),
{
    if a.len() == 0 {
        b.len() > 0
    } else if b.len() == 0 {
        false
    } else if a[0] != b[0] {
        a[0] < b[0]
    } else {
        text_less(a.skip(1), b.skip(1))
    }
}

/// Position of the identity chosen by version among the first `n`: the
/// first one whose version no later one is newer than.
pub open spec fn best_by_version(ids: Seq<ExtensionId>, n: int) -> int
    decreases n,
{
    if n <= 1 {
        0
    } else {
        let b = best_by_version(ids, n - 1);
        if version_newer(
            version_triple(ids[n - 1].version@),
            version_triple(ids[b].version@),
        ) {
            n - 1
        } else {
            b
        }
    }
}

/// Position of the identity chosen by module path among the first `n`:
/// the deepest path, and among equally deep ones the first smallest.
pub open spec fn best_by_priority(ids: Seq<ExtensionId>, n: int) -> int
    decreases n,
{
    if n <= 1 {
        0
    } else {
        let b = best_by_priority(ids, n - 1);
        let d = module_depth(ids[n - 1].module@);
        let bd = module_depth(ids[b].module@);
        if d > bd || (d == bd && text_less(ids[n - 1].module@, ids[b].module@)) {
            n - 1
        } else {
            b
        }
    }
}

/// The fields of `s` split at dots.
fn split_dots(s: &Vec<char>) -> (r: Vec<Vec<char>>)
    ensures
        r@.len() == split_dot(s@).len(),
        forall|j: int| 0 <= j < r@.len() ==> #[trigger] r@[j]@ == split_dot(s@)[j],
{
    let mut parts: Vec<Vec<char>> = Vec::new();
    let mut cur: Vec<char> = Vec::new();
    let mut i: usize = 0;
    while i < s.len()
        invariant
            i <= s@.len(),
            parts@.len() + 1 == split_dot(s@.take(i as int)).len(),
            forall|j: int| 0 <= j < parts@.len() ==> #[trigger] parts@[j]@ == split_dot(s@.take(i as int))[j],
            cur@ == split_dot(s@.take(i as int)).last(),
        decreases s@.len() - i,
    {
        proof {
            assert(s@.take(i + 1).drop_last() =~= s@.take(i as int));
        }
        let c = s[i];
        if c == '.' {
            parts.push(cur);
            cur = Vec::new();
        } else {
            cur.push(c);
        }
        i = i + 1;
    }
    parts.push(cur);
    proof {
        assert(s@.take(s@.len() as int) =~= s@);
    }
    parts
}

/// Prefixes of digits have no larger value.
proof fn lemma_digits_prefix(d: Seq<char>, k: int)
    requires
        0 <= k <= d.len(),
        all_digits(d),
    ensures
        digits_value(d.take(k)) <= digits_value(d),
    decreases d.len() - k,
{
    if k < d.len() {
        lemma_digits_prefix(d, k + 1);
        assert(d.take(k + 1).drop_last() =~= d.take(k));
        let x = digits_value(d.take(k));
        assert(x * 10 >= x) by (nonlinear_arith)
            requires
                x >= 0,
        ;
    } else {
        assert(d.take(k) =~= d);
    }
}

/// The number `u32::from_str` reads from a text.
fn parse_u32_chars(t: &Vec<char>) -> (r: Option<u32>)
    ensures
        r == parse_u32_text(t@),
{
    let start: usize = if t.len() > 0 && t[0] == '+' {
        1
    } else {
        0
    };
    let ghost d = if t@.len() > 0 && t@[0] == '+' {
        t@.skip(1)
    } else {
        t@
    };
    proof {
        assert(d =~= t@.skip(start as int));
    }
    if start >= t.len() {
        return None;
    }
    let mut v: u64 = 0;
    let mut i: usize = start;
    while i < t.len()
        invariant
            start <= i <= t@.len(),
            d == t@.skip(start as int),
            d == (if t@.len() > 0 && t@[0] == '+' {
                t@.skip(1)
            } else {
                t@
            }),
            all_digits(d.take(i - start)),
            v == digits_value(d.take(i - start)),
            v <= u32::MAX,
        decreases t@.len() - i,
    {
        let c = t[i];
        proof {
            assert(d[i - start] == c);
        }
        if !('0' <= c && c <= '9') {
            proof {
                assert(!all_digits(d));
            }
            return None;
        }
        let digit = (c as u32 - 48) as u64;
        proof {
            assert(d.take(i - start + 1).drop_last() =~= d.take(i - start));
            assert(d.take(i - start + 1).last() == c);
        }
        v = v * 10 + digit;
        i = i + 1;
        if v > 0xFFFF_FFFF {
            proof {
                if all_digits(d) {
                    lemma_digits_prefix(d, i - start);
                }
            }
            return None;
        }
    }
    proof {
        assert(d.take(i - start) =~= d);
    }
    Some(v as u32)
}

/// Major, minor and patch numbers of a version text; a field that is
/// missing or not a number counts as zero.
pub fn parse_version(version: &str) -> (r: (u32, u32, u32))
    ensures
        r == version_triple(version@),
{
    let chars = chars_of(version);
    let parts = split_dots(&chars);
    let major = if parts.len() > 0 {
        match parse_u32_chars(&parts[0]) {
            Some(x) => x,
            None => 0,
        }
    } else {
        0
    };
    let minor = if parts.len() > 1 {
        match parse_u32_chars(&parts[1]) {
            Some(x) => x,
            None => 0,
        }
    } else {
        0
    };
    let patch = if parts.len() > 2 {
        match parse_u32_chars(&parts[2]) {
            Some(x) => x,
            None => 0,
        }
    } else {
        0
    };
    (major, minor, patch)
}

/// -1, 0 or 1 as version `a` is older than, equal to or newer than `b`.
pub fn compare_versions(a: &(u32, u32, u32), b: &(u32, u32, u32)) -> (r: i32)
    ensures
        r == 1 <==> version_newer(*a, *b),
        r == -1 <==> version_newer(*b, *a),
        r == 0 <==> *a == *b,
{
    if a.0 != b.0 {
        if a.0 > b.0 {
            1
        } else {
            -1
        }
    } else if a.1 != b.1 {
        if a.1 > b.1 {
            1
        } else {
            -1
        }
    } else if a.2 != b.2 {
        if a.2 > b.2 {
            1
        } else {
            -1
        }
    } else {
        0
    }
}

/// Depth of a module path: zero when empty, otherwise one more than its
/// number of `::`.
pub fn count_module_depth(module: &str) -> (r: usize)
    ensures
        r == module_depth(module@),
{
    let s = chars_of(module);
    if s.len() == 0 {
        return 0;
    }
    let mut count: usize = 0;
    let mut i: usize = 0;
    proof {
        assert(s@.skip(0) =~= s@);
    }
    while i < s.len()
        invariant
            i <= s@.len(),
            count + separator_count(s@.skip(i as int)) == separator_count(s@),
            2 * count <= i,
        decreases s@.len() - i,
    {
        if i + 1 < s.len() && s[i] == ':' && s[i + 1] == ':' {
            proof {
                assert(s@.skip(i as int).skip(2) =~= s@.skip(i + 2));
            }
            count = count + 1;
            i = i + 2;
        } else {
            proof {
                assert(s@.skip(i as int).skip(1) =~= s@.skip(i + 1));
            }
            i = i + 1;
        }
    }
    proof {
        assert(separator_count(s@.skip(i as int)) == 0);
    }
    count + 1
}

/// Whether a version text has a digit, and a dot or nothing but digits.
pub fn is_valid_version_format(version: &str) -> (r: bool)
    ensures
        r == version_format_ok(version@),
{
    let s = chars_of(version);
    let mut has_digit = false;
    let mut has_dot = false;
    let mut only_digits = true;
    let mut i: usize = 0;
    while i < s.len()
        invariant
            i <= s@.len(),
            has_digit == exists|j: int| 0 <= j < i && '0' <= #[trigger] s@[j] <= '9',
            has_dot == exists|j: int| 0 <= j < i && #[trigger] s@[j] == '.',
            only_digits == forall|j: int| 0 <= j < i ==> '0' <= #[trigger] s@[j] <= '9',
        decreases s@.len() - i,
    {
        let c = s[i];
        if '0' <= c && c <= '9' {
            has_digit = true;
        } else {
            only_digits = false;
        }
        if c == '.' {
            has_dot = true;
        }
        i = i + 1;
    }
    has_digit && (has_dot || only_digits)
}

/// Whether text `a` comes before text `b` character by character.
pub(crate) fn text_before(a: &Vec<char>, b: &Vec<char>) -> (r: bool)
    ensures
        r == text_less(a@, b@),
{
    let mut i: usize = 0;
    proof {
        assert(a@.skip(0) =~= a@);
        assert(b@.skip(0) =~= b@);
    }
    while i < a.len() && i < b.len() && a[i] == b[i]
        invariant
            i <= a@.len(),
            i <= b@.len(),
            text_less(a@, b@) == text_less(a@.skip(i as int), b@.skip(i as int)),
        decreases a@.len() - i,
    {
        proof {
            assert(a@.skip(i as int).skip(1) =~= a@.skip(i + 1));
            assert(b@.skip(i as int).skip(1) =~= b@.skip(i + 1));
        }
        i = i + 1;
    }
    if i == a.len() {
        i < b.len()
    } else if i == b.len() {
        false
    } else {
        a[i] < b[i]
    }
}

/// One step of the choice by module path.
proof fn lemma_priority_step(ids: Seq<ExtensionId>, n: int)
    requires
        1 <= n < ids.len(),
    ensures
        best_by_priority(ids, n + 1) == if ({
            let b = best_by_priority(ids, n);
            let d = module_depth(ids[n].module@);
            let bd = module_depth(ids[b].module@);
            d > bd || (d == bd && text_less(ids[n].module@, ids[b].module@))
        }) {
            n
        } else {
            best_by_priority(ids, n)
        },
{
}

/// Operations on extension identities that need no registry.
pub struct MacroExtensionManager;

impl MacroExtensionManager {
    /// The identity with the newest version; the first of equally new ones;
    /// none from an empty list.
    pub fn resolve_namespace_conflict_by_version(extension_ids: &[ExtensionId]) -> (r: Option<ExtensionId>)
        ensures
            extension_ids@.len() == 0 ==> r is None,
            extension_ids@.len() > 0 ==> (r matches Some(id) && id.key()
                == extension_ids@[best_by_version(extension_ids@, extension_ids@.len() as int)].key()),
            r matches Some(id) ==> forall|i: int|
                0 <= i < extension_ids@.len() ==> !version_newer(
                    version_triple(#[trigger] extension_ids@[i].version@),
                    version_triple(id.version@),
                ),
    {
        if extension_ids.len() == 0 {
            return None;
        }
        proof {
            law_chosen_version_is_newest(extension_ids@, extension_ids@.len() as int);
        }
        let mut best: usize = 0;
        let mut best_version = parse_version(extension_ids[0].version.as_str());
        let mut i: usize = 1;
        while i < extension_ids.len()
            invariant
                1 <= i <= extension_ids@.len(),
                best < i,
                best == best_by_version(extension_ids@, i as int),
                best_version == version_triple(extension_ids@[best as int].version@),
            decreases extension_ids@.len() - i,
        {
            let version = parse_version(extension_ids[i].version.as_str());
            if compare_versions(&version, &best_version) > 0 {
                best = i;
                best_version = version;
            }
            i = i + 1;
        }
        Some(extension_ids[best].copy())
    }

    /// The identity with the deepest module path; among equally deep ones
    /// the first with the smallest path; none from an empty list.
    pub fn resolve_namespace_conflict_by_priority(extension_ids: &[ExtensionId]) -> (r: Option<ExtensionId>)
        ensures
            extension_ids@.len() == 0 ==> r is None,
            extension_ids@.len() > 0 ==> (r matches Some(id) && id.key()
                == extension_ids@[best_by_priority(extension_ids@, extension_ids@.len() as int)].key()),
    {
        if extension_ids.len() == 0 {
            return None;
        }
        let mut best: usize = 0;
        let mut best_depth = count_module_depth(extension_ids[0].module.as_str());
        let mut i: usize = 1;
        while i < extension_ids.len()
            invariant
                1 <= i <= extension_ids@.len(),
                best < i,
                best == best_by_priority(extension_ids@, i as int),
                best_depth == module_depth(extension_ids@[best as int].module@),
            decreases extension_ids@.len() - i,
        {
            let depth = count_module_depth(extension_ids[i].module.as_str());
            let take = if depth > best_depth {
                true
            } else if depth == best_depth {
                let here = chars_of(extension_ids[i].module.as_str());
                let there = chars_of(extension_ids[best].module.as_str());
                text_before(&here, &there)
            } else {
                false
            };
            proof {
                lemma_priority_step(extension_ids@, i as int);
            }
            if take {
                best = i;
                best_depth = depth;
            }
            i = i + 1;
        }
        Some(extension_ids[best].copy())
    }

    /// The identities an extension depends on: none are tracked.
    pub fn get_extension_dependencies(extension_id: &ExtensionId) -> (r: Vec<ExtensionId>)
        ensures
            r@.len() == 0,
    {
        let _ = extension_id;
        Vec::new()
    }

    /// Checks that no field of the identity is empty and that its version
    /// looks like one.
    pub fn validate_extension_compatibility(extension_id: &ExtensionId) -> (r: ExtensionResult<()>)
        ensures
            r is Ok <==> (extension_id.module@.len() > 0 && extension_id.name@.len() > 0
                && extension_id.version@.len() > 0 && version_format_ok(extension_id.version@)),
            r matches Err(e) ==> e is ValidationError,
    {
        if chars_of(extension_id.module.as_str()).len() == 0 || chars_of(
            extension_id.name.as_str(),
        ).len() == 0 || chars_of(extension_id.version.as_str()).len() == 0 {
            return Err(ExtensionError::ValidationError { reason: "扩展ID字段不能为空".to_owned() });
        }
        if !is_valid_version_format(extension_id.version.as_str()) {
            let mut reason = "无效的版本格式: ".to_owned();
            reason.append(extension_id.version.as_str());
            return Err(ExtensionError::ValidationError { reason });
        }
        Ok(())
    }
}

/// The identity chosen by version among the first `n` is at least as new as
/// each of them, and strictly newer than each one before it.
pub proof fn law_chosen_version_is_newest(ids: Seq<ExtensionId>, n: int)
    requires
        1 <= n <= ids.len(),
    ensures
        0 <= best_by_version(ids, n) < n,
        forall|i: int|
            0 <= i < n ==> !version_newer(
                version_triple(#[trigger] ids[i].version@),
                version_triple(ids[best_by_version(ids, n)].version@),
            ),
        forall|i: int|
            0 <= i < best_by_version(ids, n) ==> version_newer(
                version_triple(ids[best_by_version(ids, n)].version@),
                version_triple(#[trigger] ids[i].version@),
            ),
    decreases n,
{
    if n > 1 {
        law_chosen_version_is_newest(ids, n - 1);
    }
}

} // verus!
