//! Repository-level logic: finding a repository's default branch, reading
//! the commit log of that branch, and recognising the user's own commits.
use vstd::prelude::*;
use crate::models::{CommitTimelineItem, RepoBadge, RepoDefaultBranchTimeline, RepoHomeItem};
use crate::text::{trimmed, chars_of, str_eq, string_from_range, trim_string, eq_ignoring_ascii_case, eq_ignore_ascii_case};
use crate::badges::opt_view;

verus! {

// ---------------------------------------------------------------------------
// Default branch
// ---------------------------------------------------------------------------

/// Where the lookup of a repository's default branch stands.
#[derive(Clone, Debug)]
pub enum DefaultBranchLookup {
    /// Nothing read yet.
    Start,
    /// The cached value (in the repo badge) has been asked for.
    ReadingCache,
    /// It is known whether a local clone exists, and detection is running.
    Detecting,
    /// The detected branch is being written to the cache.
    Caching(String),
    /// The answer is known.
    Done(String),
}

/// What the lookup learns from outside.
#[derive(Debug)]
pub enum DefaultBranchEvent {
    /// Begin the lookup.
    Begin,
    /// The cached default branch of the badge (none if there is no badge,
    /// no cached value, or the store could not be read).
    CacheRead(Option<String>),
    /// Whether a local clone exists (`None`: no clone path can be formed).
    CloneChecked(Option<bool>),
    /// The result of the detection that was asked for.
    Detected(Result<String, String>),
    /// The cache write finished (its failure is only logged).
    CacheWritten,
}

/// What the caller must do next.
#[derive(Clone, Debug)]
pub enum DefaultBranchAction {
    /// Read the cached default branch from the badge.
    ReadCache,
    /// Check whether the repository has a local clone on disk.
    CheckLocalClone,
    /// Detect from the local clone: the `HEAD branch` that `git remote show
    /// origin` reports, else whichever of `origin/main` and `origin/master`
    /// exists there.
    DetectFromLocalClone,
    /// Write this branch to the badge's cache.
    WriteCache(String),
    /// The lookup is over: this is the default branch.
    Return(String),
    /// The event does not fit the current state; nothing to do.
    Ignore,
}

/// The lookup's transitions, over string views: the next state and action.
pub open spec fn default_branch_step(
    state: DefaultBranchLookup,
    event: DefaultBranchEvent,
) -> (DefaultBranchLookupView, DefaultBranchActionView) {
    match (state, event) {
        (DefaultBranchLookup::Start, DefaultBranchEvent::Begin) => (
            DefaultBranchLookupView::ReadingCache,
            DefaultBranchActionView::ReadCache,
        ),
        (DefaultBranchLookup::ReadingCache, DefaultBranchEvent::CacheRead(Some(b))) => (
            DefaultBranchLookupView::Done(b@),
            DefaultBranchActionView::Return(b@),
        ),
        (DefaultBranchLookup::ReadingCache, DefaultBranchEvent::CacheRead(None)) => (
            DefaultBranchLookupView::Detecting,
            DefaultBranchActionView::CheckLocalClone,
        ),
        (DefaultBranchLookup::Detecting, DefaultBranchEvent::CloneChecked(Some(true))) => (
            DefaultBranchLookupView::Detecting,
            DefaultBranchActionView::DetectFromLocalClone,
        ),
        (DefaultBranchLookup::Detecting, DefaultBranchEvent::CloneChecked(_)) => (
            DefaultBranchLookupView::Caching(main_branch()),
            DefaultBranchActionView::WriteCache(main_branch()),
        ),
        (DefaultBranchLookup::Detecting, DefaultBranchEvent::Detected(Ok(b))) => (
            DefaultBranchLookupView::Caching(b@),
            DefaultBranchActionView::WriteCache(b@),
        ),
        (DefaultBranchLookup::Detecting, DefaultBranchEvent::Detected(Err(_))) => (
            DefaultBranchLookupView::Caching(main_branch()),
            DefaultBranchActionView::WriteCache(main_branch()),
        ),
        (DefaultBranchLookup::Caching(b), DefaultBranchEvent::CacheWritten) => (
            DefaultBranchLookupView::Done(b@),
            DefaultBranchActionView::Return(b@),
        ),
        (s, _) => (lookup_view(s), DefaultBranchActionView::Ignore),
    }
}

/// `main`, the branch assumed when detection fails.
pub open spec fn main_branch() -> Seq<char> {
    seq!['m', 'a', 'i', 'n']
}

/// The lookup state with strings taken by their view.
pub enum DefaultBranchLookupView {
    Start,
    ReadingCache,
    Detecting,
    Caching(Seq<char>),
    Done(Seq<char>),
}

/// The action with strings taken by their view.
pub enum DefaultBranchActionView {
    ReadCache,
    CheckLocalClone,
    DetectFromLocalClone,
    WriteCache(Seq<char>),
    Return(Seq<char>),
    Ignore,
}

pub open spec fn lookup_view(s: DefaultBranchLookup) -> DefaultBranchLookupView {
    match s {
        DefaultBranchLookup::Start => DefaultBranchLookupView::Start,
        DefaultBranchLookup::ReadingCache => DefaultBranchLookupView::ReadingCache,
        DefaultBranchLookup::Detecting => DefaultBranchLookupView::Detecting,
        DefaultBranchLookup::Caching(b) => DefaultBranchLookupView::Caching(b@),
        DefaultBranchLookup::Done(b) => DefaultBranchLookupView::Done(b@),
    }
}

pub open spec fn action_view(a: DefaultBranchAction) -> DefaultBranchActionView {
    match a {
        DefaultBranchAction::ReadCache => DefaultBranchActionView::ReadCache,
        DefaultBranchAction::CheckLocalClone => DefaultBranchActionView::CheckLocalClone,
        DefaultBranchAction::DetectFromLocalClone => DefaultBranchActionView::DetectFromLocalClone,
        DefaultBranchAction::WriteCache(b) => DefaultBranchActionView::WriteCache(b@),
        DefaultBranchAction::Return(b) => DefaultBranchActionView::Return(b@),
        DefaultBranchAction::Ignore => DefaultBranchActionView::Ignore,
    }
}

fn main_string() -> (res: String)
    ensures
        res@ == main_branch(),
{
    let v: Vec<char> = vec!['m', 'a', 'i', 'n'];
    assert(v@ =~= main_branch());
    crate::text::string_from_chars(v.as_slice())
}

/// One step of detecting a repository's default branch and caching it in
/// its badge. The fallback chain: the cached value; else detection from the
/// local clone when there is one; `main` when there is no local clone or
/// detection fails. The answer is written to the cache before it is
/// returned. The lookup never fails.
pub fn detect_and_store_default_branch(state: DefaultBranchLookup, event: DefaultBranchEvent) -> (res:
    (DefaultBranchLookup, DefaultBranchAction))
    ensures
        (lookup_view(res.0), action_view(res.1)) == default_branch_step(state, event),
{
    match (state, event) {
        (DefaultBranchLookup::Start, DefaultBranchEvent::Begin) => (
            DefaultBranchLookup::ReadingCache,
            DefaultBranchAction::ReadCache,
        ),
        (DefaultBranchLookup::ReadingCache, DefaultBranchEvent::CacheRead(Some(b))) => {
            let r = b.clone();
            (DefaultBranchLookup::Done(b), DefaultBranchAction::Return(r))
        },
        (DefaultBranchLookup::ReadingCache, DefaultBranchEvent::CacheRead(None)) => (
            DefaultBranchLookup::Detecting,
            DefaultBranchAction::CheckLocalClone,
        ),
        (DefaultBranchLookup::Detecting, DefaultBranchEvent::CloneChecked(Some(true))) => (
            DefaultBranchLookup::Detecting,
            DefaultBranchAction::DetectFromLocalClone,
        ),
        (DefaultBranchLookup::Detecting, DefaultBranchEvent::CloneChecked(_)) => (
            DefaultBranchLookup::Caching(main_string()),
            DefaultBranchAction::WriteCache(main_string()),
        ),
        (DefaultBranchLookup::Detecting, DefaultBranchEvent::Detected(Ok(b))) => {
            let r = b.clone();
            (DefaultBranchLookup::Caching(b), DefaultBranchAction::WriteCache(r))
        },
        (DefaultBranchLookup::Detecting, DefaultBranchEvent::Detected(Err(_))) => (
            DefaultBranchLookup::Caching(main_string()),
            DefaultBranchAction::WriteCache(main_string()),
        ),
        (DefaultBranchLookup::Caching(b), DefaultBranchEvent::CacheWritten) => {
            let r = b.clone();
            (DefaultBranchLookup::Done(b), DefaultBranchAction::Return(r))
        },
        (s, _) => (s, DefaultBranchAction::Ignore),
    }
}

/// The whole lookup, for any outcome of the outside reads: with a cached
/// value it returns that value at once and writes nothing; without one it
/// detects from the local clone when one exists, writes the detected branch,
/// or `main` when there is no clone or detection failed, to the cache, and
/// returns it.
pub proof fn lemma_default_branch_lookup(
    cached: Option<String>,
    clone: Option<bool>,
    detected: Result<String, String>,
)
    ensures
        ({
            let (s1, a1) = default_branch_step(DefaultBranchLookup::Start, DefaultBranchEvent::Begin);
            a1 == DefaultBranchActionView::ReadCache && s1 == DefaultBranchLookupView::ReadingCache
        }),
        cached matches Some(b) ==> default_branch_step(
            DefaultBranchLookup::ReadingCache,
            DefaultBranchEvent::CacheRead(cached),
        ).1 == DefaultBranchActionView::Return(b@),
        cached is None ==> default_branch_step(
            DefaultBranchLookup::ReadingCache,
            DefaultBranchEvent::CacheRead(cached),
        ) == (DefaultBranchLookupView::Detecting, DefaultBranchActionView::CheckLocalClone),
        default_branch_step(DefaultBranchLookup::Detecting, DefaultBranchEvent::CloneChecked(clone))
            == if clone == Some(true) {
            (DefaultBranchLookupView::Detecting, DefaultBranchActionView::DetectFromLocalClone)
        } else {
            (DefaultBranchLookupView::Caching(main_branch()), DefaultBranchActionView::WriteCache(main_branch()))
        },
        ({
            let expected = match detected {
                Ok(b) => b@,
                Err(_) => main_branch(),
            };
            &&& default_branch_step(DefaultBranchLookup::Detecting, DefaultBranchEvent::Detected(detected))
                == (DefaultBranchLookupView::Caching(expected), DefaultBranchActionView::WriteCache(expected))
            &&& forall|s: String|
                s@ == expected ==> #[trigger] default_branch_step(
                    DefaultBranchLookup::Caching(s),
                    DefaultBranchEvent::CacheWritten,
                ).1 == DefaultBranchActionView::Return(expected)
        }),
{
}

/// A second lookup answers from the cache: when the badge gives back the
/// branch a first lookup wrote (`cached@ == written`), the lookup returns
/// that branch right after reading the cache, without any detection.
pub proof fn lemma_second_lookup_uses_cache(written: Seq<char>, cached: String)
    requires
        cached@ == written,
    ensures
        default_branch_step(DefaultBranchLookup::ReadingCache, DefaultBranchEvent::CacheRead(Some(cached)))
            == (DefaultBranchLookupView::Done(written), DefaultBranchActionView::Return(written)),
{
}

/// The default branch after a fresh local clone, and the subpaths of the
/// repository's badges whose cached value is overwritten with it. A
/// successful detection on the clone replaces every badge's cached value;
/// when detection fails the answer is `main` and nothing is written.
pub fn clone_default_branch_updates(
    detected: Result<String, String>,
    badges: &[RepoBadge],
    github_repo: &str,
) -> (res: (String, Vec<String>))
    ensures
        detected is Ok ==> forall|i: int|
            0 <= i < badges@.len() && (#[trigger] badges@[i]).github_repo@ == github_repo@
                ==> crate::badges::views(res.1@).contains(badges@[i].subpath@),
        match detected {
            Ok(b) => res.0@ == b@ && crate::badges::views(res.1@) == badge_subpaths_of(badges@, github_repo@),
            Err(_) => res.0@ == main_branch() && res.1@.len() == 0,
        },
{
    match detected {
        Err(_) => (main_string(), Vec::new()),
        Ok(b) => {
            let repo = github_repo.to_owned();
            let mut out: Vec<String> = Vec::new();
            let n = badges.len();
            for i in 0..n
                invariant
                    n == badges@.len(),
                    repo@ == github_repo@,
                    crate::badges::views(out@) == badge_subpaths_of(badges@.take(i as int), github_repo@),
            {
                assert(badges@.take(i + 1).drop_last() =~= badges@.take(i as int));
                assert(badges@.take(i + 1).last() == badges@[i as int]);
                if badges[i].github_repo == repo {
                    let ghost before = out@;
                    out.push(badges[i].subpath.clone());
                    assert(crate::badges::views(out@) =~= crate::badges::views(before).push(
                        badges@[i as int].subpath@,
                    ));
                }
            }
            assert(badges@.take(n as int) =~= badges@);
            proof {
                lemma_clone_updates_every_badge_of_repo(badges@, github_repo@);
            }
            (b, out)
        },
    }
}

/// Whether `subpath` is the subpath of some badge of `repo`.
pub open spec fn is_subpath_of_repo_badge(badges: Seq<RepoBadge>, repo: Seq<char>, subpath: Seq<char>) -> bool {
    exists|i: int| 0 <= i < badges.len() && (#[trigger] badges[i]).github_repo@ == repo && badges[i].subpath@ == subpath
}

/// After a successful detection on a fresh clone, the badges whose cached
/// default branch is overwritten are exactly the repository's badges: every
/// badge of `repo` has its subpath listed, whatever it cached before, and
/// every listed subpath is that of a badge of `repo`.
pub proof fn lemma_clone_updates_every_badge_of_repo(badges: Seq<RepoBadge>, repo: Seq<char>)
    ensures
        forall|i: int|
            0 <= i < badges.len() && (#[trigger] badges[i]).github_repo@ == repo ==> badge_subpaths_of(
                badges,
                repo,
            ).contains(badges[i].subpath@),
        forall|q: int|
            0 <= q < badge_subpaths_of(badges, repo).len() ==> is_subpath_of_repo_badge(
                badges,
                repo,
                #[trigger] badge_subpaths_of(badges, repo)[q],
            ),
    decreases badges.len(),
{
    if badges.len() > 0 {
        let d = badges.drop_last();
        lemma_clone_updates_every_badge_of_repo(d, repo);
        let n = badges.len() - 1;
        let sub = badge_subpaths_of(badges, repo);
        let subd = badge_subpaths_of(d, repo);
        assert forall|i: int| 0 <= i < badges.len() && (#[trigger] badges[i]).github_repo@ == repo implies sub.contains(
            badges[i].subpath@,
        ) by {
            if i < n {
                assert(d[i] == badges[i]);
                let q = choose|q: int| 0 <= q < subd.len() && subd[q] == badges[i].subpath@;
                assert(sub[q] == subd[q]);
            } else {
                assert(sub[subd.len() as int] == badges[i].subpath@);
            }
        }
        assert forall|q: int| 0 <= q < sub.len() implies is_subpath_of_repo_badge(badges, repo, #[trigger] sub[q]) by {
            if q < subd.len() {
                assert(sub[q] == subd[q]);
                assert(is_subpath_of_repo_badge(d, repo, subd[q]));
                let i = choose|i: int| 0 <= i < d.len() && (#[trigger] d[i]).github_repo@ == repo && d[i].subpath@ == subd[q];
                assert(badges[i] == d[i]);
            } else {
                assert(badges[n] == badges.last());
                assert(badges.last().github_repo@ == repo);
                assert(sub == subd.push(badges.last().subpath@));
                assert(sub[q] == badges[n].subpath@);
            }
        }
    } else {
        assert(badge_subpaths_of(badges, repo).len() == 0);
    }
}

/// The subpaths of the badges of `repo`, in order.
pub open spec fn badge_subpaths_of(badges: Seq<RepoBadge>, repo: Seq<char>) -> Seq<Seq<char>>
    decreases badges.len(),
{
    if badges.len() == 0 {
        Seq::empty()
    } else if badges.last().github_repo@ == repo {
        badge_subpaths_of(badges.drop_last(), repo).push(badges.last().subpath@)
    } else {
        badge_subpaths_of(badges.drop_last(), repo)
    }
}

// ---------------------------------------------------------------------------
// Reading `git log --format=%H|%h|%s|%an|%ae|%ct`
// ---------------------------------------------------------------------------

/// The index of the first `c` in `s`, or `s.len()` when there is none.
pub open spec fn first_pos(s: Seq<char>, c: char) -> nat
    decreases s.len(),
{
    if s.len() == 0 {
        0
    } else if s[0] == c {
        0
    } else {
        1 + first_pos(s.drop_first(), c)
    }
}

pub proof fn lemma_first_pos_le(s: Seq<char>, c: char)
    ensures
        first_pos(s, c) <= s.len(),
    decreases s.len(),
{
    if s.len() > 0 && s[0] != c {
        lemma_first_pos_le(s.drop_first(), c);
    }
}

proof fn lemma_first_pos(s: Seq<char>, c: char, k: int)
    requires
        0 <= k <= s.len(),
        forall|j: int| 0 <= j < k ==> s[j] != c,
        k == s.len() || s[k] == c,
    ensures
        first_pos(s, c) == k,
    decreases k,
{
    if k > 0 {
        lemma_first_pos(s.drop_first(), c, k - 1);
    }
}

/// The index of the first `c` in `cs[from..to]`, counted from the start of
/// `cs`; `to` when there is none.
fn find_char(cs: &[char], from: usize, to: usize, c: char) -> (res: usize)
    requires
        from <= to <= cs@.len(),
    ensures
        res == from + first_pos(cs@.subrange(from as int, to as int), c),
        from <= res <= to,
{
    let mut i = from;
    while i < to && cs[i] != c
        invariant
            from <= i <= to <= cs@.len(),
            forall|j: int| from <= j < i ==> cs@[j] != c,
        decreases to - i,
    {
        i = i + 1;
    }
    proof {
        let t = cs@.subrange(from as int, to as int);
        assert forall|j: int| 0 <= j < i - from implies t[j] != c by {
            assert(t[j] == cs@[from + j]);
        }
        lemma_first_pos(t, c, i - from);
    }
    i
}

/// `line` without one trailing carriage return.
pub open spec fn strip_cr(line: Seq<char>) -> Seq<char> {
    if line.len() > 0 && line.last() == '\r' {
        line.drop_last()
    } else {
        line
    }
}

/// `str::splitn(n, '|')`: at most `n` fields, the last holding the rest.
pub open spec fn split_fields(line: Seq<char>, n: nat) -> Seq<Seq<char>>
    decreases n,
{
    if n <= 1 {
        seq![line]
    } else {
        let p = first_pos(line, '|');
        if p == line.len() {
            seq![line]
        } else {
            seq![line.subrange(0, p as int)] + split_fields(
                line.subrange((p + 1) as int, line.len() as int),
                (n - 1) as nat,
            )
        }
    }
}

/// The bounds of the fields of `cs[from..to]` split as `split_fields` does.
fn split_field_bounds(cs: &[char], from: usize, to: usize, n: usize) -> (res: Vec<(usize, usize)>)
    requires
        from <= to <= cs@.len(),
        n >= 1,
    ensures
        res@.len() == split_fields(cs@.subrange(from as int, to as int), n as nat).len(),
        forall|k: int| 0 <= k < res@.len() ==> #[trigger] res@[k].0 <= res@[k].1 <= cs@.len(),
        forall|k: int|
            0 <= k < res@.len() ==> #[trigger] cs@.subrange(res@[k].0 as int, res@[k].1 as int)
                == split_fields(cs@.subrange(from as int, to as int), n as nat)[k],
    decreases n,
{
    let ghost line = cs@.subrange(from as int, to as int);
    if n <= 1 {
        let mut v = Vec::new();
        v.push((from, to));
        return v;
    }
    let p = find_char(cs, from, to, '|');
    if p == to {
        let mut v = Vec::new();
        v.push((from, to));
        return v;
    }
    let mut v = Vec::new();
    v.push((from, p));
    let rest = split_field_bounds(cs, p + 1, to, n - 1);
    proof {
        assert(line.subrange(0, (p - from) as int) =~= cs@.subrange(from as int, p as int));
        assert(line.subrange(p - from + 1, line.len() as int) =~= cs@.subrange(p + 1, to as int));
    }
    let mut k: usize = 0;
    let m = rest.len();
    while k < m
        invariant
            m == rest@.len(),
            k <= m,
            v@.len() == k + 1,
            v@[0] == (from, p),
            forall|j: int| 1 <= j < v@.len() ==> v@[j] == rest@[j - 1],
        decreases m - k,
    {
        v.push(rest[k]);
        k = k + 1;
    }
    proof {
        let expected = split_fields(line, n as nat);
        assert(expected == seq![cs@.subrange(from as int, p as int)] + split_fields(
            cs@.subrange(p + 1, to as int),
            (n - 1) as nat,
        ));
        assert forall|j: int| 0 <= j < v@.len() implies #[trigger] v@[j].0 <= v@[j].1 <= cs@.len() by {
            if j > 0 {
                assert(v@[j] == rest@[j - 1]);
            }
        }
        assert forall|j: int| 0 <= j < v@.len() implies #[trigger] cs@.subrange(
            v@[j].0 as int,
            v@[j].1 as int,
        ) == expected[j] by {
            if j > 0 {
                assert(v@[j] == rest@[j - 1]);
                assert(cs@.subrange(rest@[j - 1].0 as int, rest@[j - 1].1 as int) == split_fields(
                    cs@.subrange(p + 1, to as int),
                    (n - 1) as nat,
                )[j - 1]);
            }
        }
    }
    v
}

/// What `str::parse::<i64>` reads: an optional `+` or `-`, then one or more
/// ASCII digits, with a value in range.
pub open spec fn parse_i64_spec(s: Seq<char>) -> Option<int> {
    let neg = s.len() > 0 && s[0] == '-';
    let signed = s.len() > 0 && (s[0] == '-' || s[0] == '+');
    let d = if signed {
        s.drop_first()
    } else {
        s
    };
    if d.len() == 0 || !all_digits(d) {
        None
    } else {
        let v = if neg {
            -digits_value(d)
        } else {
            digits_value(d)
        };
        if i64::MIN <= v <= i64::MAX {
            Some(v)
        } else {
            None
        }
    }
}

pub open spec fn is_digit(c: char) -> bool {
    '0' <= c && c <= '9'
}

/// Every character is an ASCII digit.
pub open spec fn all_digits(d: Seq<char>) -> bool {
    forall|i: int| 0 <= i < d.len() ==> is_digit(#[trigger] d[i])
}

/// The decimal value of a string of digits.
pub open spec fn digits_value(d: Seq<char>) -> int
    decreases d.len(),
{
    if d.len() == 0 {
        0
    } else {
        digits_value(d.drop_last()) * 10 + (d.last() as int - 48)
    }
}

proof fn lemma_digits_value_grows(d: Seq<char>, k: int)
    requires
        0 <= k <= d.len(),
        forall|i: int| 0 <= i < d.len() ==> is_digit(#[trigger] d[i]),
    ensures
        digits_value(d) >= digits_value(d.take(k)) >= 0,
    decreases d.len(),
{
    if d.len() > 0 {
        if k == d.len() {
            assert(d.take(k) =~= d);
            lemma_digits_value_grows(d.drop_last(), d.len() - 1);
            assert(d.drop_last().take(d.len() - 1) =~= d.drop_last());
        } else {
            lemma_digits_value_grows(d.drop_last(), k);
            assert(d.drop_last().take(k) =~= d.take(k));
        }
    } else {
        assert(d.take(k) =~= d);
    }
}

proof fn lemma_parse_i64_spec_unfold(s: Seq<char>, d: Seq<char>, signed: bool, neg: bool)
    requires
        d == if signed {
            s.drop_first()
        } else {
            s
        },
        neg == (s.len() > 0 && s[0] == '-'),
        signed == (s.len() > 0 && (s[0] == '-' || s[0] == '+')),
    ensures
        parse_i64_spec(s) == if d.len() == 0 || !all_digits(d) {
            None
        } else {
            let v = if neg {
                -digits_value(d)
            } else {
                digits_value(d)
            };
            if i64::MIN <= v <= i64::MAX {
                Some(v)
            } else {
                None
            }
        },
{
}

/// `str::parse::<i64>` on `cs[from..to]`.
pub fn parse_i64(cs: &[char], from: usize, to: usize) -> (res: Option<i64>)
    requires
        from <= to <= cs@.len(),
    ensures
        match parse_i64_spec(cs@.subrange(from as int, to as int)) {
            Some(v) => res == Some(v as i64),
            None => res is None,
        },
{
    let ghost s = cs@.subrange(from as int, to as int);
    let neg = from < to && cs[from] == '-';
    let signed = from < to && (cs[from] == '-' || cs[from] == '+');
    let start = if signed {
        from + 1
    } else {
        from
    };
    let ghost d = if signed {
        s.drop_first()
    } else {
        s
    };
    assert(d =~= cs@.subrange(start as int, to as int));
    if start == to {
        return None;
    }
    let limit: u128 = 9223372036854775808;
    let mut v: u128 = 0;
    let mut i = start;
    while i < to
        invariant
            start <= i <= to <= cs@.len(),
            from <= start,
            limit == 9223372036854775808,
            s == cs@.subrange(from as int, to as int),
            d == cs@.subrange(start as int, to as int),
            d == if signed {
                s.drop_first()
            } else {
                s
            },
            d.len() > 0,
            neg == (s.len() > 0 && s[0] == '-'),
            signed == (s.len() > 0 && (s[0] == '-' || s[0] == '+')),
            forall|j: int| start <= j < i ==> is_digit(#[trigger] cs@[j]),
            v == digits_value(d.take(i - start)),
            v <= limit,
        decreases to - i,
    {
        let c = cs[i];
        if !('0' <= c && c <= '9') {
            proof {
                assert(d[i - start] == c);
                assert(!is_digit(d[i - start]));
                assert(!(forall|j: int| 0 <= j < d.len() ==> is_digit(#[trigger] d[j])));
                lemma_parse_i64_spec_unfold(s, d, signed, neg);
            }
            return None;
        }
        proof {
            assert(d.take(i - start + 1).drop_last() =~= d.take(i - start));
            assert(d.take(i - start + 1).last() == c);
        }
        let digit: u128 = (c as u32 - 48) as u128;
        v = v * 10 + digit;
        if v > limit {
            return out_of_range_or_invalid(cs, start, to, i + 1, v, Ghost(d), Ghost(s), neg, signed);
        }
        i = i + 1;
    }
    assert(d.take(to - start) =~= d);
    assert forall|j: int| 0 <= j < d.len() implies is_digit(#[trigger] d[j]) by {
        assert(d[j] == cs@[start + j]);
    }
    proof {
        lemma_parse_i64_spec_unfold(s, d, signed, neg);
    }
    if neg {
        if v == limit {
            Some(i64::MIN)
        } else {
            let w: i64 = v as i64;
            Some(-w)
        }
    } else {
        if v > 9223372036854775807 {
            None
        } else {
            Some(v as i64)
        }
    }
}

/// Once the digits read so far exceed the range, the parse fails whatever
/// follows: either a later character is not a digit, or the value only grows.
fn out_of_range_or_invalid(
    cs: &[char],
    start: usize,
    to: usize,
    i: usize,
    v: u128,
    Ghost(d): Ghost<Seq<char>>,
    Ghost(s): Ghost<Seq<char>>,
    neg: bool,
    signed: bool,
) -> (res: Option<i64>)
    requires
        start < i <= to <= cs@.len(),
        d == cs@.subrange(start as int, to as int),
        forall|j: int| start <= j < i ==> is_digit(#[trigger] cs@[j]),
        v == digits_value(d.take(i - start)),
        v > 9223372036854775808,
        s.len() > 0 || !signed,
        d == if signed {
            s.drop_first()
        } else {
            s
        },
        neg == (s.len() > 0 && s[0] == '-'),
        signed == (s.len() > 0 && (s[0] == '-' || s[0] == '+')),
    ensures
        res is None,
        parse_i64_spec(s) is None,
{
    proof {
        lemma_parse_i64_spec_unfold(s, d, signed, neg);
        if d.len() > 0 && forall|j: int| 0 <= j < d.len() ==> is_digit(#[trigger] d[j]) {
            lemma_digits_value_grows(d, i - start);
            assert(digits_value(d) > 9223372036854775808);
        }
    }
    None
}

/// One commit line of the log, split into its six fields, with its position
/// among the non-empty lines.
pub open spec fn log_entries(s: Seq<char>, i: int) -> Seq<(Seq<Seq<char>>, int)>
    decreases s.len(),
{
    if s.len() == 0 {
        Seq::empty()
    } else {
        proof {
            lemma_first_pos_le(s, '\n');
        }
        let k = first_pos(s, '\n');
        let line = if k == s.len() {
            s
        } else {
            strip_cr(s.subrange(0, k as int))
        };
        let rest = if k == s.len() {
            Seq::<char>::empty()
        } else {
            s.subrange((k + 1) as int, s.len() as int)
        };
        let parts = split_fields(line, 6);
        let here = if line.len() > 0 && parts.len() == 6 {
            seq![(parts, i)]
        } else {
            Seq::empty()
        };
        let next = if line.len() > 0 {
            i + 1
        } else {
            i
        };
        here + log_entries(rest, next)
    }
}

/// Number of non-empty lines (as `str::lines` splits them).
pub open spec fn nonempty_lines(s: Seq<char>) -> nat
    decreases s.len(),
{
    if s.len() == 0 {
        0
    } else {
        proof {
            lemma_first_pos_le(s, '\n');
        }
        let k = first_pos(s, '\n');
        let line = if k == s.len() {
            s
        } else {
            strip_cr(s.subrange(0, k as int))
        };
        let rest = if k == s.len() {
            Seq::<char>::empty()
        } else {
            s.subrange((k + 1) as int, s.len() as int)
        };
        nonempty_lines(rest) + if line.len() > 0 {
            1nat
        } else {
            0nat
        }
    }
}

/// Whether `c` is the commit read from `parts` at position `i` of a log of
/// at most `max_count` commits: the fields in order, the timestamp parsed
/// (0 when it does not parse), and the order counted down from the newest
/// (converted to `i64` as `as` converts, so a count past `i64::MAX` wraps).
pub open spec fn commit_from_fields(
    c: CommitTimelineItem,
    parts: Seq<Seq<char>>,
    i: int,
    max_count: int,
) -> bool {
    &&& c.id is None
    &&& c.sha@ == parts[0]
    &&& c.short_sha@ == parts[1]
    &&& c.subject@ == parts[2]
    &&& c.author@ == parts[3]
    &&& c.author_email@ == parts[4]
    &&& c.timestamp as int == match parse_i64_spec(parts[5]) {
        Some(v) => v,
        None => 0,
    }
    &&& c.order == (max_count - 1 - i) as i64
    &&& c.session_id is None
    &&& c.session_status is None
    &&& c.completion_reason is None
    &&& !c.is_own_commit
}

/// Reads the output of `git log -<max_count> --format=%H|%h|%s|%an|%ae|%ct`:
/// one commit per non-empty line with at least six `|`-separated fields
/// (the subject is the third; the sixth field holds the rest of the line).
/// Lines with fewer fields are skipped but still counted for `order`, which
/// counts down from `max_count - 1` for the newest line.
pub fn parse_commit_log(output: &str, max_count: usize) -> (res: Vec<CommitTimelineItem>)
    requires
        nonempty_lines(output@) <= max_count,
    ensures
        res@.len() == log_entries(output@, 0).len(),
        forall|k: int|
            0 <= k < res@.len() ==> commit_from_fields(
                #[trigger] res@[k],
                log_entries(output@, 0)[k].0,
                log_entries(output@, 0)[k].1,
                max_count as int,
            ),
{
    let cs = chars_of(output);
    let n = cs.len();
    let mut res: Vec<CommitTimelineItem> = Vec::new();
    let mut pos: usize = 0;
    let mut i: usize = 0;
    let ghost mut seen: Seq<(Seq<Seq<char>>, int)> = Seq::empty();
    assert(cs@.subrange(0, n as int) =~= output@);
    while pos < n
        invariant
            n == cs@.len(),
            cs@ == output@,
            pos <= n,
            nonempty_lines(output@) <= max_count,
            i + nonempty_lines(cs@.subrange(pos as int, n as int)) == nonempty_lines(output@),
            seen + log_entries(cs@.subrange(pos as int, n as int), i as int) == log_entries(output@, 0),
            res@.len() == seen.len(),
            forall|k: int|
                0 <= k < res@.len() ==> commit_from_fields(
                    #[trigger] res@[k],
                    seen[k].0,
                    seen[k].1,
                    max_count as int,
                ),
        decreases n - pos,
    {
        let ghost rest_all = cs@.subrange(pos as int, n as int);
        let ghost i0: int = i as int;
        let nl = find_char(cs.as_slice(), pos, n, '\n');
        let mut end = nl;
        if nl < n && end > pos && cs[end - 1] == '\r' {
            end = end - 1;
        }
        let next = if nl < n {
            nl + 1
        } else {
            n
        };
        proof {
            let k = first_pos(rest_all, '\n');
            assert(k == nl - pos);
            if k < rest_all.len() {
                let raw = rest_all.subrange(0, k as int);
                assert(raw =~= cs@.subrange(pos as int, nl as int));
                if raw.len() > 0 && raw.last() == '\r' {
                    assert(strip_cr(raw) =~= cs@.subrange(pos as int, end as int));
                } else {
                    assert(strip_cr(raw) =~= cs@.subrange(pos as int, end as int));
                }
                assert(rest_all.subrange((k + 1) as int, rest_all.len() as int) =~= cs@.subrange(
                    next as int,
                    n as int,
                ));
            } else {
                assert(rest_all =~= cs@.subrange(pos as int, end as int));
                assert(cs@.subrange(next as int, n as int) =~= Seq::<char>::empty());
            }
        }
        let ghost line = cs@.subrange(pos as int, end as int);
        let ghost seen_before = seen;
        if end > pos {
            let bounds = split_field_bounds(cs.as_slice(), pos, end, 6);
            if bounds.len() == 6 {
                let (t0, t1) = bounds[5];
                let stamp = match parse_i64(cs.as_slice(), t0, t1) {
                    Some(v) => v,
                    None => 0,
                };
                proof {
                    assert(nonempty_lines(rest_all) == nonempty_lines(cs@.subrange(next as int, n as int)) + 1);
                    assert(i < max_count);
                }
                let order: i64 = (max_count - 1 - i) as i64;
                let item = CommitTimelineItem {
                    id: None,
                    sha: string_from_range(cs.as_slice(), bounds[0].0, bounds[0].1),
                    short_sha: string_from_range(cs.as_slice(), bounds[1].0, bounds[1].1),
                    subject: string_from_range(cs.as_slice(), bounds[2].0, bounds[2].1),
                    author: string_from_range(cs.as_slice(), bounds[3].0, bounds[3].1),
                    author_email: string_from_range(cs.as_slice(), bounds[4].0, bounds[4].1),
                    timestamp: stamp,
                    order,
                    session_id: None,
                    session_status: None,
                    completion_reason: None,
                    is_own_commit: false,
                };
                proof {
                    let parts = split_fields(line, 6);
                    assert(cs@.subrange(bounds@[0].0 as int, bounds@[0].1 as int) == parts[0]);
                    assert(cs@.subrange(bounds@[1].0 as int, bounds@[1].1 as int) == parts[1]);
                    assert(cs@.subrange(bounds@[2].0 as int, bounds@[2].1 as int) == parts[2]);
                    assert(cs@.subrange(bounds@[3].0 as int, bounds@[3].1 as int) == parts[3]);
                    assert(cs@.subrange(bounds@[4].0 as int, bounds@[4].1 as int) == parts[4]);
                    assert(cs@.subrange(bounds@[5].0 as int, bounds@[5].1 as int) == parts[5]);
                    seen = seen.push((parts, i as int));
                }
                res.push(item);
            }
            i = i + 1;
        }
        proof {
            assert(seen_before + log_entries(rest_all, i0) == log_entries(output@, 0));
            assert(log_entries(rest_all, i0) == (if line.len() > 0 && split_fields(line, 6).len() == 6 {
                seq![(split_fields(line, 6), i0)]
            } else {
                Seq::empty()
            }) + log_entries(cs@.subrange(next as int, n as int), i as int));
            assert(seen + log_entries(cs@.subrange(next as int, n as int), i as int) =~= log_entries(
                output@,
                0,
            ));
            assert(nonempty_lines(rest_all) == nonempty_lines(cs@.subrange(next as int, n as int)) + if line.len() > 0 {
                1nat
            } else {
                0nat
            });
        }
        pos = next;
    }
    res
}

// ---------------------------------------------------------------------------
// The user's own commits
// ---------------------------------------------------------------------------

/// A `git config` value as the identity check uses it: trimmed, and only
/// when not blank.
pub open spec fn identity_value(raw: Option<Seq<char>>) -> Option<Seq<char>> {
    match raw {
        Some(s) => if trimmed(s).len() > 0 {
            Some(trimmed(s))
        } else {
            None
        },
        None => None,
    }
}

/// The identity value (`user.name` or `user.email`) read from `git config`.
pub fn git_identity(raw: Option<String>) -> (res: Option<String>)
    ensures
        opt_view(res) == identity_value(opt_view(raw)),
{
    match raw {
        None => None,
        Some(s) => {
            let t = trim_string(s.as_str());
            if t.as_str().is_empty() {
                None
            } else {
                Some(t)
            }
        },
    }
}

/// Whether a commit counts as the user's own: its author name matches the
/// configured name, or its author email the configured email, ignoring
/// ASCII case.
pub open spec fn is_own(c: CommitTimelineItem, name: Option<Seq<char>>, email: Option<Seq<char>>) -> bool {
    ||| (name matches Some(n) && eq_ignoring_ascii_case(c.author@, n))
    ||| (email matches Some(e) && eq_ignoring_ascii_case(c.author_email@, e))
}

/// Marks the commits authored by the current git user (see `is_own`);
/// nothing else changes, and no mark is removed.
pub fn mark_own_commits(commits: &mut Vec<CommitTimelineItem>, name: &Option<String>, email: &Option<String>)
    ensures
        final(commits)@.len() == old(commits)@.len(),
        forall|k: int|
            0 <= k < old(commits)@.len() ==> #[trigger] final(commits)@[k] == (CommitTimelineItem {
                is_own_commit: old(commits)@[k].is_own_commit || is_own(
                    old(commits)@[k],
                    opt_view(*name),
                    opt_view(*email),
                ),
                ..old(commits)@[k]
            }),
{
    let name_cs: Option<Vec<char>> = match name {
        Some(s) => Some(chars_of(s.as_str())),
        None => None,
    };
    let email_cs: Option<Vec<char>> = match email {
        Some(s) => Some(chars_of(s.as_str())),
        None => None,
    };
    let n = commits.len();
    for k in 0..n
        invariant
            n == commits@.len() == old(commits)@.len(),
            name_cs matches Some(v) ==> name matches Some(s) && v@ == s@,
            name_cs is None ==> name is None,
            email_cs matches Some(v) ==> email matches Some(s) && v@ == s@,
            email_cs is None ==> email is None,
            forall|j: int|
                0 <= j < k ==> #[trigger] commits@[j] == (CommitTimelineItem {
                    is_own_commit: old(commits)@[j].is_own_commit || is_own(
                        old(commits)@[j],
                        opt_view(*name),
                        opt_view(*email),
                    ),
                    ..old(commits)@[j]
                }),
            forall|j: int| k <= j < n ==> #[trigger] commits@[j] == old(commits)@[j],
    {
        let mut own = false;
        if let Some(v) = &name_cs {
            let author = chars_of(commits[k].author.as_str());
            if eq_ignore_ascii_case(author.as_slice(), v.as_slice()) {
                own = true;
            }
        }
        if !own {
            if let Some(v) = &email_cs {
                let author_email = chars_of(commits[k].author_email.as_str());
                if eq_ignore_ascii_case(author_email.as_slice(), v.as_slice()) {
                    own = true;
                }
            }
        }
        if own {
            commits[k].is_own_commit = true;
        }
    }
}

/// The timeline of a repository's default branch, read from its commit log
/// and marked with the user's own commits.
pub fn default_branch_timeline(
    log_output: &str,
    max_count: usize,
    user_name: Option<String>,
    user_email: Option<String>,
    default_branch: String,
) -> (res: RepoDefaultBranchTimeline)
    requires
        nonempty_lines(log_output@) <= max_count,
    ensures
        res.default_branch == default_branch,
        res.commits@.len() == log_entries(log_output@, 0).len(),
        forall|k: int|
            0 <= k < res.commits@.len() ==> commit_from_fields(
                CommitTimelineItem { is_own_commit: false, ..#[trigger] res.commits@[k] },
                log_entries(log_output@, 0)[k].0,
                log_entries(log_output@, 0)[k].1,
                max_count as int,
            ) && res.commits@[k].is_own_commit == is_own(
                res.commits@[k],
                identity_value(opt_view(user_name)),
                identity_value(opt_view(user_email)),
            ),
{
    let mut commits = parse_commit_log(log_output, max_count);
    let name = git_identity(user_name);
    let email = git_identity(user_email);
    let ghost before = commits@;
    mark_own_commits(&mut commits, &name, &email);
    proof {
        assert forall|k: int| 0 <= k < commits@.len() implies commit_from_fields(
            CommitTimelineItem { is_own_commit: false, ..#[trigger] commits@[k] },
            log_entries(log_output@, 0)[k].0,
            log_entries(log_output@, 0)[k].1,
            max_count as int,
        ) && commits@[k].is_own_commit == is_own(
            commits@[k],
            identity_value(opt_view(user_name)),
            identity_value(opt_view(user_email)),
        ) by {
            assert(commits@[k] == CommitTimelineItem {
                is_own_commit: before[k].is_own_commit || is_own(before[k], opt_view(name), opt_view(email)),
                ..before[k]
            });
            assert(CommitTimelineItem { is_own_commit: false, ..commits@[k] } == before[k]);
        }
    }
    RepoDefaultBranchTimeline { commits, default_branch }
}

// ---------------------------------------------------------------------------
// Pinned repositories and the home screen
// ---------------------------------------------------------------------------

/// Whether pinning a repository must also detect its default branch: when
/// its badge exists and has none cached yet.
pub fn needs_default_branch_backfill(badge: Option<&RepoBadge>) -> (res: bool)
    ensures
        res == (badge matches Some(b) && b.default_branch is None),
{
    match badge {
        Some(b) => b.default_branch.is_none(),
        None => false,
    }
}

/// The home screen's entries: each badge, in order, with whether its
/// repository has a local clone (`has_clone[i]` for `badges[i]`).
pub fn home_items(badges: &[RepoBadge], has_clone: &[bool]) -> (res: Vec<RepoHomeItem>)
    requires
        badges@.len() == has_clone@.len(),
    ensures
        res@.len() == badges@.len(),
        forall|i: int|
            0 <= i < res@.len() ==> #[trigger] res@[i] == (RepoHomeItem {
                badge: badges@[i],
                has_local_clone: has_clone@[i],
            }),
{
    let n = badges.len();
    let mut out: Vec<RepoHomeItem> = Vec::new();
    for i in 0..n
        invariant
            n == badges@.len() == has_clone@.len(),
            out@.len() == i,
            forall|j: int|
                0 <= j < i ==> #[trigger] out@[j] == (RepoHomeItem {
                    badge: badges@[j],
                    has_local_clone: has_clone@[j],
                }),
    {
        out.push(RepoHomeItem { badge: crate::badges::copy_badge(&badges[i]), has_local_clone: has_clone[i] });
    }
    out
}

/// The error when a badge is gone right after it was updated.
pub open spec fn badge_gone_after_update(github_repo: Seq<char>, subpath: Seq<char>) -> Seq<char> {
    "Badge not found after update for "@ + github_repo + "/"@ + subpath
}

/// The badge read back after an update, or the error when it is gone.
pub fn badge_after_update(github_repo: &str, subpath: &str, found: Option<RepoBadge>) -> (res: Result<RepoBadge, String>)
    ensures
        match found {
            Some(b) => res == Ok::<RepoBadge, String>(b),
            None => res matches Err(m) && m@ == badge_gone_after_update(github_repo@, subpath@),
        },
{
    match found {
        Some(b) => Ok(b),
        None => {
            let mut m = "Badge not found after update for ".to_owned();
            crate::text::append_str(&mut m, github_repo);
            crate::text::append_str(&mut m, "/");
            crate::text::append_str(&mut m, subpath);
            Err(m)
        },
    }
}

/// Whether deleting an action context also removes the repository's clone:
/// only when the store counted no other context for the repository
/// (`None`: the count failed, and the clone is kept).
pub fn should_remove_clone(remaining_contexts: Option<usize>) -> (res: bool)
    ensures
        res == (remaining_contexts == Some(0usize)),
{
    match remaining_contexts {
        Some(n) => n == 0,
        None => false,
    }
}

// ---------------------------------------------------------------------------
// The default branch's timeline
// ---------------------------------------------------------------------------

/// How many commits the timeline of a default branch shows when the caller
/// gives no limit.
pub const DEFAULT_TIMELINE_LIMIT: usize = 50;

/// The number of commits read for the timeline.
pub fn timeline_limit(limit: Option<usize>) -> (res: usize)
    ensures
        res == match limit {
            Some(l) => l,
            None => DEFAULT_TIMELINE_LIMIT,
        },
{
    match limit {
        Some(l) => l,
        None => DEFAULT_TIMELINE_LIMIT,
    }
}

/// The error when no clone path can be formed (no home directory).
pub open spec fn no_clone_path() -> Seq<char> {
    "Cannot determine clone path"@
}

/// The error when the repository has no local clone.
pub open spec fn no_local_clone(github_repo: Seq<char>) -> Seq<char> {
    "No local clone found for "@ + github_repo + ". Clone the repo first."@
}

/// The timeline is read from the repository's local clone, which must
/// exist: `clone_path_known` tells whether a clone path could be formed,
/// `has_git_dir` whether a `.git` directory is there.
pub fn check_timeline_clone(github_repo: &str, clone_path_known: bool, has_git_dir: bool) -> (res: Result<(), String>)
    ensures
        !clone_path_known ==> (res matches Err(m) && m@ == no_clone_path()),
        clone_path_known && !has_git_dir ==> (res matches Err(m) && m@ == no_local_clone(github_repo@)),
        clone_path_known && has_git_dir ==> res is Ok,
{
    if !clone_path_known {
        return Err("Cannot determine clone path".to_owned());
    }
    if !has_git_dir {
        let mut m = "No local clone found for ".to_owned();
        crate::text::append_str(&mut m, github_repo);
        crate::text::append_str(&mut m, ". Clone the repo first.");
        return Err(m);
    }
    Ok(())
}

/// The remote branch whose log the timeline reads: `origin/<default branch>`.
pub fn timeline_ref(default_branch: &str) -> (res: String)
    ensures
        res@ == "origin/"@ + default_branch@,
{
    let mut s = "origin/".to_owned();
    crate::text::append_str(&mut s, default_branch);
    s
}

} // verus!
