//! Route classifier: a pure map from a request path to its protection
//! requirement.
//!
//! Protection is represented as data — each policy group registers a
//! path prefix and a list of protected suffixes — consumed by one
//! generic classification routine.  A path belongs to the first group
//! whose prefix it starts with; within its group it requires
//! authentication exactly when it ends with one of the group's
//! suffixes.  Paths outside every group are open.

use vstd::prelude::*;
use vstd::seq_lib::*;

verus! {

/// A path-prefix group sharing one list of protected suffixes.
#[derive(Clone, Copy, Debug, PartialEq, Eq, Structural)]
pub enum PolicyGroup {
    Posts,
    Users,
}

/// What a request path demands before the request may proceed.
#[derive(Clone, Copy, Debug, PartialEq, Eq, Structural)]
pub enum ProtectionRequirement {
    /// The request is forwarded with no further checks.
    Open,
    /// The request must pass dual-token validation under the group's
    /// policy.
    Protected(PolicyGroup),
}

/// One entry of the route protection table: a group, its path prefix,
/// and the path suffixes that require authentication within it.
pub struct RouteGroup {
    pub group: PolicyGroup,
    pub prefix: &'static str,
    pub suffixes: Vec<&'static str>,
}

impl RouteGroup {
    /// Whether a path inside this group requires authentication.
    pub open spec fn spec_requires_auth(self, path: Seq<char>) -> bool {
        exists|i: int|
            0 <= i < self.suffixes@.len() && (#[trigger] self.suffixes@[i])@.is_suffix_of(path)
    }
}

/// Whether `s` starts with `prefix`, character for character.
pub fn str_starts_with(s: &str, prefix: &str) -> (r: bool)
    ensures
        r == prefix@.is_prefix_of(s@),
{
    let n = prefix.unicode_len();
    if n > s.unicode_len() {
        return false;
    }
    let mut i: usize = 0;
    while i < n
        invariant
            i <= n,
            n == prefix@.len(),
            n <= s@.len(),
            forall|j: int| 0 <= j < i ==> s@[j] == prefix@[j],
        decreases n - i,
    {
        if s.get_char(i) != prefix.get_char(i) {
            assert(!prefix@.is_prefix_of(s@)) by {
                assert(s@.subrange(0, n as int)[i as int] == s@[i as int]);
            }
            return false;
        }
        i += 1;
    }
    assert(prefix@ =~= s@.subrange(0, n as int));
    true
}

/// Whether `s` ends with `suffix`, character for character.
pub fn str_ends_with(s: &str, suffix: &str) -> (r: bool)
    ensures
        r == suffix@.is_suffix_of(s@),
{
    let n = suffix.unicode_len();
    let len = s.unicode_len();
    if n > len {
        return false;
    }
    let offset = len - n;
    let mut i: usize = 0;
    while i < n
        invariant
            i <= n,
            n == suffix@.len(),
            len == s@.len(),
            offset == len - n,
            forall|j: int| 0 <= j < i ==> s@[offset + j] == suffix@[j],
        decreases n - i,
    {
        if s.get_char(offset + i) != suffix.get_char(i) {
            assert(!suffix@.is_suffix_of(s@)) by {
                assert(s@.subrange(offset as int, len as int)[i as int] == s@[offset + i]);
            }
            return false;
        }
        i += 1;
    }
    assert(suffix@ =~= s@.subrange(offset as int, len as int));
    true
}

/// Whether `s` ends with any of the given suffixes: the one routine every
/// policy group's suffix list goes through.
pub fn str_ends_with_any(s: &str, suffixes: &Vec<&str>) -> (r: bool)
    ensures
        r == exists|i: int| 0 <= i < suffixes@.len() && (#[trigger] suffixes@[i])@.is_suffix_of(
            s@,
        ),
{
    let mut k: usize = 0;
    while k < suffixes.len()
        invariant
            k <= suffixes@.len(),
            forall|i: int| 0 <= i < k ==> !(#[trigger] suffixes@[i])@.is_suffix_of(s@),
        decreases suffixes@.len() - k,
    {
        if str_ends_with(s, suffixes[k]) {
            return true;
        }
        k += 1;
    }
    false
}

/// The requirement a table assigns to a path: the first group whose
/// prefix matches decides, and within it the protected suffixes decide.
pub open spec fn spec_classify_with(table: Seq<RouteGroup>, path: Seq<char>) -> (
    ProtectionRequirement)
    decreases table.len(),
{
    if table.len() == 0 {
        ProtectionRequirement::Open
    } else if table[0].prefix@.is_prefix_of(path) {
        if table[0].spec_requires_auth(path) {
            ProtectionRequirement::Protected(table[0].group)
        } else {
            ProtectionRequirement::Open
        }
    } else {
        spec_classify_with(table.drop_first(), path)
    }
}

/// Classify a path against a route protection table.
pub fn classify_with(table: &Vec<RouteGroup>, path: &str) -> (r: ProtectionRequirement)
    ensures
        r == spec_classify_with(table@, path@),
{
    proof {
        assert(table@.skip(0) =~= table@);
    }
    let mut k: usize = 0;
    while k < table.len()
        invariant
            k <= table@.len(),
            spec_classify_with(table@, path@) == spec_classify_with(table@.skip(k as int), path@),
        decreases table@.len() - k,
    {
        let group = &table[k];
        proof {
            assert(table@.skip(k as int)[0] == table@[k as int]);
        }
        if str_starts_with(path, group.prefix) {
            if str_ends_with_any(path, &group.suffixes) {
                return ProtectionRequirement::Protected(group.group);
            } else {
                return ProtectionRequirement::Open;
            }
        }
        proof {
            assert(table@.skip(k as int).drop_first() =~= table@.skip(k as int + 1));
        }
        k += 1;
    }
    ProtectionRequirement::Open
}

/// The process-wide route protection table: creating, updating and
/// deleting posts and logging a user out require authentication.  New
/// groups and suffixes are added here, without touching the
/// classification routine.
pub fn route_table() -> (r: Vec<RouteGroup>)
    ensures
        r@.len() == 2,
        r@[0].group == PolicyGroup::Posts,
        r@[0].prefix@ == "/posts"@,
        r@[0].suffixes@.len() == 3,
        (r@[0].suffixes@[0])@ == "/update"@,
        (r@[0].suffixes@[1])@ == "/create"@,
        (r@[0].suffixes@[2])@ == "/delete"@,
        r@[1].group == PolicyGroup::Users,
        r@[1].prefix@ == "/users"@,
        r@[1].suffixes@.len() == 1,
        (r@[1].suffixes@[0])@ == "/logout"@,
{
    let mut post_suffixes: Vec<&'static str> = Vec::new();
    post_suffixes.push("/update");
    post_suffixes.push("/create");
    post_suffixes.push("/delete");
    let mut user_suffixes: Vec<&'static str> = Vec::new();
    user_suffixes.push("/logout");
    let mut table: Vec<RouteGroup> = Vec::new();
    table.push(RouteGroup { group: PolicyGroup::Posts, prefix: "/posts", suffixes: post_suffixes });
    table.push(RouteGroup { group: PolicyGroup::Users, prefix: "/users", suffixes: user_suffixes });
    table
}

/// The protection requirement of a path under the process-wide table,
/// written out group by group.
pub open spec fn spec_classify(path: Seq<char>) -> ProtectionRequirement {
    if "/posts"@.is_prefix_of(path) {
        if "/update"@.is_suffix_of(path) || "/create"@.is_suffix_of(path)
            || "/delete"@.is_suffix_of(path) {
            ProtectionRequirement::Protected(PolicyGroup::Posts)
        } else {
            ProtectionRequirement::Open
        }
    } else if "/users"@.is_prefix_of(path) {
        if "/logout"@.is_suffix_of(path) {
            ProtectionRequirement::Protected(PolicyGroup::Users)
        } else {
            ProtectionRequirement::Open
        }
    } else {
        ProtectionRequirement::Open
    }
}

/// Classify a request path under the process-wide table.
pub fn classify(path: &str) -> (r: ProtectionRequirement)
    ensures
        r == spec_classify(path@),
{
    let table = route_table();
    let r = classify_with(&table, path);
    proof {
        lemma_table_classification_matches(table@, path@);
    }
    r
}

/// The generic routine applied to the process-wide table computes
/// exactly the requirement that `spec_classify` writes out.
proof fn lemma_table_classification_matches(table: Seq<RouteGroup>, path: Seq<char>)
    requires
        table.len() == 2,
        table[0].group == PolicyGroup::Posts,
        table[0].prefix@ == "/posts"@,
        table[0].suffixes@.len() == 3,
        (table[0].suffixes@[0])@ == "/update"@,
        (table[0].suffixes@[1])@ == "/create"@,
        (table[0].suffixes@[2])@ == "/delete"@,
        table[1].group == PolicyGroup::Users,
        table[1].prefix@ == "/users"@,
        table[1].suffixes@.len() == 1,
        (table[1].suffixes@[0])@ == "/logout"@,
    ensures
        spec_classify_with(table, path) == spec_classify(path),
{
    let rest = table.drop_first();
    assert(rest[0] == table[1]);
    assert(rest.drop_first().len() == 0);
    assert(spec_classify_with(rest.drop_first(), path) == ProtectionRequirement::Open);
    if table[0].prefix@.is_prefix_of(path) {
        if table[0].spec_requires_auth(path) {
            let i = choose|i: int|
                0 <= i < table[0].suffixes@.len() && (#[trigger] table[0].suffixes@[i])@
                    .is_suffix_of(path);
            assert(i == 0 || i == 1 || i == 2);
        } else {
            assert(forall|i: int|
                0 <= i < table[0].suffixes@.len() ==> !(#[trigger] table[0].suffixes@[i])@
                    .is_suffix_of(path));
            assert(!"/update"@.is_suffix_of(path)) by {
                assert(!(table[0].suffixes@[0])@.is_suffix_of(path));
            }
            assert(!"/create"@.is_suffix_of(path)) by {
                assert(!(table[0].suffixes@[1])@.is_suffix_of(path));
            }
            assert(!"/delete"@.is_suffix_of(path)) by {
                assert(!(table[0].suffixes@[2])@.is_suffix_of(path));
            }
        }
    } else {
        assert(spec_classify_with(table, path) == spec_classify_with(rest, path));
        if table[1].prefix@.is_prefix_of(path) {
            if table[1].spec_requires_auth(path) {
                let i = choose|i: int|
                    0 <= i < table[1].suffixes@.len() && (#[trigger] table[1].suffixes@[i])@
                        .is_suffix_of(path);
                assert(i == 0);
            } else {
                assert(!"/logout"@.is_suffix_of(path)) by {
                    assert(!(table[1].suffixes@[0])@.is_suffix_of(path));
                }
            }
        } else {
            assert(spec_classify_with(rest, path) == spec_classify_with(rest.drop_first(), path));
        }
    }
}

} // verus!
