//! Repository badges: the rules for short names, the prompt that asks an AI
//! agent for names, reading its answer, and choosing a provider.
use vstd::prelude::*;
use crate::models::RepoBadge;
use crate::workspaces::occurs_in;
use crate::text::{
    trimmed, is_white_space, has_prefix, has_suffix, chars_of, trim_bounds, trim_string,
    starts_with, ends_with, string_from_range, append_str, append_string,
};

verus! {

// ---------------------------------------------------------------------------
// Short names
// ---------------------------------------------------------------------------

/// A character allowed in a short name: lower-case ASCII letter, digit or dot.
pub open spec fn short_name_char(c: char) -> bool {
    ('a' <= c && c <= 'z') || ('0' <= c && c <= '9') || c == '.'
}

/// Number of occurrences of `c` in `s`.
pub open spec fn count_char(s: Seq<char>, c: char) -> nat
    decreases s.len(),
{
    if s.len() == 0 {
        0
    } else {
        count_char(s.drop_last(), c) + if s.last() == c {
            1nat
        } else {
            0nat
        }
    }
}

/// Number of bytes in the UTF-8 encoding of `c`.
pub open spec fn utf8_width(c: char) -> nat {
    if (c as u32) < 0x80 {
        1
    } else if (c as u32) < 0x800 {
        2
    } else if (c as u32) < 0x10000 {
        3
    } else {
        4
    }
}

/// Number of bytes in the UTF-8 encoding of `s` (what `str::len` returns).
pub open spec fn utf8_len(s: Seq<char>) -> nat
    decreases s.len(),
{
    if s.len() == 0 {
        0
    } else {
        utf8_len(s.drop_last()) + utf8_width(s.last())
    }
}

proof fn lemma_utf8_len_bounds(s: Seq<char>)
    ensures
        s.len() <= utf8_len(s),
    decreases s.len(),
{
    if s.len() > 0 {
        lemma_utf8_len_bounds(s.drop_last());
    }
}

/// Which rule a short name breaks, checked in this order.
#[derive(Clone, Copy, Debug, PartialEq, Eq, Structural)]
pub enum ShortNameProblem {
    /// Empty, or longer than 6 bytes.
    Length,
    /// Holds a character other than `a-z`, `0-9` and `.`.
    Charset,
    /// More than one dot, or a dot at the start or end.
    Dots,
}

/// The first rule that `name` breaks, if any.
pub open spec fn short_name_problem(name: Seq<char>) -> Option<ShortNameProblem> {
    if name.len() == 0 || utf8_len(name) > 6 {
        Some(ShortNameProblem::Length)
    } else if !(forall|i: int| 0 <= i < name.len() ==> short_name_char(#[trigger] name[i])) {
        Some(ShortNameProblem::Charset)
    } else if count_char(name, '.') > 1 || name[0] == '.' || name.last() == '.' {
        Some(ShortNameProblem::Dots)
    } else {
        None
    }
}

/// The error text for each broken rule.
pub open spec fn short_name_message(p: ShortNameProblem) -> Seq<char> {
    match p {
        ShortNameProblem::Length => "Short name must be 1-6 characters"@,
        ShortNameProblem::Charset => "Short name must be lowercase alphanumeric (dots allowed)"@,
        ShortNameProblem::Dots => "Short name may contain at most one dot, not at start or end"@,
    }
}

fn problem_message(p: ShortNameProblem) -> (res: String)
    ensures
        res@ == short_name_message(p),
{
    match p {
        ShortNameProblem::Length => "Short name must be 1-6 characters".to_owned(),
        ShortNameProblem::Charset => "Short name must be lowercase alphanumeric (dots allowed)".to_owned(),
        ShortNameProblem::Dots => "Short name may contain at most one dot, not at start or end".to_owned(),
    }
}

/// The first rule that `name` breaks, if any.
pub fn check_short_name(name: &String) -> (res: Option<ShortNameProblem>)
    ensures
        res == short_name_problem(name@),
{
    let cs = chars_of(name.as_str());
    let n = cs.len();
    if n == 0 || n > 6 {
        proof {
            lemma_utf8_len_bounds(name@);
        }
        return Some(ShortNameProblem::Length);
    }
    let mut bytes: usize = 0;
    for i in 0..n
        invariant
            n == cs@.len() <= 6,
            cs@ == name@,
            bytes == utf8_len(cs@.take(i as int)),
            bytes <= 4 * i,
    {
        assert(cs@.take(i + 1).drop_last() =~= cs@.take(i as int));
        assert(cs@.take(i + 1).last() == cs@[i as int]);
        let c = cs[i];
        let w: usize = if (c as u32) < 0x80 {
            1
        } else if (c as u32) < 0x800 {
            2
        } else if (c as u32) < 0x10000 {
            3
        } else {
            4
        };
        bytes = bytes + w;
    }
    assert(cs@.take(n as int) =~= cs@);
    if bytes > 6 {
        return Some(ShortNameProblem::Length);
    }
    for i in 0..n
        invariant
            n == cs@.len(),
            0 < n,
            cs@ == name@,
            utf8_len(name@) <= 6,
            forall|j: int| 0 <= j < i ==> short_name_char(#[trigger] cs@[j]),
    {
        let c = cs[i];
        if !(('a' <= c && c <= 'z') || ('0' <= c && c <= '9') || c == '.') {
            assert(!short_name_char(name@[i as int]));
            return Some(ShortNameProblem::Charset);
        }
    }
    let mut dots: usize = 0;
    for i in 0..n
        invariant
            n == cs@.len(),
            cs@ == name@,
            dots == count_char(cs@.take(i as int), '.'),
            dots <= i,
    {
        assert(cs@.take(i + 1).drop_last() =~= cs@.take(i as int));
        assert(cs@.take(i + 1).last() == cs@[i as int]);
        if cs[i] == '.' {
            dots = dots + 1;
        }
    }
    assert(cs@.take(n as int) =~= cs@);
    assert(forall|j: int| 0 <= j < name@.len() ==> short_name_char(#[trigger] name@[j]));
    if dots > 1 || cs[0] == '.' || cs[n - 1] == '.' {
        return Some(ShortNameProblem::Dots);
    }
    None
}

/// Checks a short name given to `update_repo_badge`: the name is trimmed,
/// then must be 1 to 6 bytes of `a-z`, `0-9` and at most one inner dot.
/// Returns the trimmed name, or the error for the first rule it breaks.
pub fn validate_short_name(short_name: &str) -> (res: Result<String, String>)
    ensures
        match short_name_problem(trimmed(short_name@)) {
            None => res matches Ok(n) && n@ == trimmed(short_name@),
            Some(p) => res matches Err(m) && m@ == short_name_message(p),
        },
{
    let t = trim_string(short_name);
    match check_short_name(&t) {
        None => Ok(t),
        Some(p) => Err(problem_message(p)),
    }
}

/// A valid short name has no white space, so trimming leaves it as it is.
proof fn lemma_valid_name_is_trimmed(name: Seq<char>)
    requires
        short_name_problem(name) is None,
    ensures
        trimmed(name) == name,
{
    assert(!is_white_space(name[0]));
    assert(crate::text::trim_start(name) == name);
    assert(!is_white_space(name.last()));
}

/// A short name that `validate_short_name` accepts is accepted again, and
/// unchanged, when it is validated a second time.
pub proof fn lemma_accepted_short_name_is_stable(input: Seq<char>)
    requires
        short_name_problem(trimmed(input)) is None,
    ensures
        trimmed(trimmed(input)) == trimmed(input),
        short_name_problem(trimmed(trimmed(input))) is None,
{
    lemma_valid_name_is_trimmed(trimmed(input));
}

/// What an accepted short name is: 1 to 6 bytes, each character an ASCII
/// lower-case letter, an ASCII digit or a dot, with at most one dot and
/// none at either end. Everything else is refused with some message.
pub proof fn lemma_accepted_short_names(name: Seq<char>)
    ensures
        short_name_problem(name) is None <==> {
            &&& 1 <= utf8_len(name) <= 6
            &&& forall|i: int|
                0 <= i < name.len() ==> ('a' <= #[trigger] name[i] && name[i] <= 'z') || ('0' <= name[i] && name[i]
                    <= '9') || name[i] == '.'
            &&& count_char(name, '.') <= 1
            &&& name[0] != '.'
            &&& name[name.len() - 1] != '.'
        },
{
    lemma_utf8_len_bounds(name);
    if name.len() == 0 {
        assert(utf8_len(name) == 0);
    }
    if short_name_problem(name) is None {
        assert forall|i: int| 0 <= i < name.len() implies ('a' <= #[trigger] name[i] && name[i] <= 'z') || ('0'
            <= name[i] && name[i] <= '9') || name[i] == '.' by {
            assert(short_name_char(name[i]));
        }
    } else {
        if 1 <= utf8_len(name) <= 6 && name.len() > 0 && !(forall|i: int| 0 <= i < name.len() ==> short_name_char(
            #[trigger] name[i],
        )) {
            let i = choose|i: int| 0 <= i < name.len() && !short_name_char(#[trigger] name[i]);
            assert(!(('a' <= name[i] && name[i] <= 'z') || ('0' <= name[i] && name[i] <= '9') || name[i] == '.'));
        }
    }
}

/// `repo`, or `repo (subpath)` when there is a subpath: how a repository is
/// shown in messages and in the badge prompt, and the key of its AI name.
pub open spec fn repo_label(repo: Seq<char>, subpath: Seq<char>) -> Seq<char> {
    if subpath.len() == 0 {
        repo
    } else {
        repo + " ("@ + subpath + ")"@
    }
}

/// The label of a repository and subpath (see `repo_label`), which is also
/// the key under which the AI answer names it.
pub fn badge_ai_key(github_repo: &str, subpath: &str) -> (res: String)
    ensures
        res@ == repo_label(github_repo@, subpath@),
{
    let mut out = github_repo.to_owned();
    if !subpath.is_empty() {
        append_str(&mut out, " (");
        append_str(&mut out, subpath);
        append_str(&mut out, ")");
    }
    out
}

/// `Short name '<name>' is already used by <label>`
pub open spec fn short_name_taken_message(short_name: Seq<char>, owner: Seq<char>) -> Seq<char> {
    "Short name '"@ + short_name + "' is already used by "@ + owner
}

/// Whether `short_name` may be given to the badge of `github_repo` and
/// `subpath`, given the badge that already has that name, if any: it may
/// when there is none or when that badge is this one.
pub fn check_short_name_available(
    existing: Option<&RepoBadge>,
    github_repo: &str,
    subpath: &str,
    short_name: &str,
) -> (res: Result<(), String>)
    ensures
        match existing {
            None => res is Ok,
            Some(e) => if e.github_repo@ == github_repo@ && e.subpath@ == subpath@ {
                res is Ok
            } else {
                res matches Err(m) && m@ == short_name_taken_message(
                    short_name@,
                    repo_label(e.github_repo@, e.subpath@),
                )
            },
        },
{
    match existing {
        None => Ok(()),
        Some(e) => {
            let same_repo = crate::text::chars_eq(
                chars_of(e.github_repo.as_str()).as_slice(),
                chars_of(github_repo).as_slice(),
            );
            let same_subpath = crate::text::chars_eq(
                chars_of(e.subpath.as_str()).as_slice(),
                chars_of(subpath).as_slice(),
            );
            if same_repo && same_subpath {
                Ok(())
            } else {
                let owner = badge_ai_key(e.github_repo.as_str(), e.subpath.as_str());
                let mut msg = "Short name '".to_owned();
                append_str(&mut msg, short_name);
                append_str(&mut msg, "' is already used by ");
                append_string(&mut msg, &owner);
                Err(msg)
            }
        },
    }
}

// ---------------------------------------------------------------------------
// The prompt
// ---------------------------------------------------------------------------

/// The fixed opening of the badge prompt: the rules and some examples.
pub const PROMPT_INTRO: &'static str = "Generate short badge names for GitHub repositories. Each name must be:\n\
     - Max 6 characters\n\
     - Lowercase alphanumeric, may contain a single dot when combining components to make separation clear\n\
     - Unique across all existing and new names\n\
     - A recognizable abbreviation of the most distinguishing part\n\n\
     Examples of good shortenings:\n\
     block/goose → goose\n\
     block/builderbot → bbot\n\
     square/square → sq\n\
     block/mark → mark\n\
     cashapp/redwood → rdwd\n\
     block/bitkey → btky\n\
     block/wallet (apps/server) → wlt.sv\n\
     block/wallet (apps/mobile) → wlt.mb\n\
     block/goose (ui) → gse.ui\n\
     block/builderbot (apps/staged) → staged\n";

/// Heads the list of names already given.
pub const PROMPT_ASSIGNED: &'static str = "\nAlready assigned (do NOT reuse these names):\n";

/// Heads the list of repositories to name.
pub const PROMPT_REQUEST: &'static str = "\nGenerate names for:\n";

/// The fixed close of the badge prompt: the answer's format.
pub const PROMPT_OUTRO: &'static str = "\nRespond with ONLY a JSON object mapping each input to its short name. \
     Use the exact input strings as keys. Example:\n\
     {\"block/builderbot\": \"bbot\", \"block/wallet (apps/server)\": \"wlt.sv\"}\n";

/// `<label> → <short name>` and a newline, for each existing badge.
pub open spec fn assigned_lines(badges: Seq<RepoBadge>) -> Seq<char>
    decreases badges.len(),
{
    if badges.len() == 0 {
        Seq::empty()
    } else {
        assigned_lines(badges.drop_last()) + repo_label(
            badges.last().github_repo@,
            badges.last().subpath@,
        ) + " → "@ + badges.last().short_name@ + "\n"@
    }
}

/// `<label>` and a newline, for each repository to name.
pub open spec fn request_lines(repos: Seq<(String, String)>) -> Seq<char>
    decreases repos.len(),
{
    if repos.len() == 0 {
        Seq::empty()
    } else {
        request_lines(repos.drop_last()) + repo_label(repos.last().0@, repos.last().1@) + "\n"@
    }
}

/// The whole prompt: the rules, the names already taken (when there are
/// any), the repositories to name, and the answer's format.
pub open spec fn badge_prompt(badges: Seq<RepoBadge>, repos: Seq<(String, String)>) -> Seq<char> {
    PROMPT_INTRO@ + (if badges.len() > 0 {
        PROMPT_ASSIGNED@ + assigned_lines(badges)
    } else {
        Seq::empty()
    }) + PROMPT_REQUEST@ + request_lines(repos) + PROMPT_OUTRO@
}

/// Build the prompt for AI short name generation.
pub fn build_badge_prompt(existing_badges: &[RepoBadge], new_repos: &[(String, String)]) -> (res:
    String)
    ensures
        res@ == badge_prompt(existing_badges@, new_repos@),
{
    let mut prompt = PROMPT_INTRO.to_owned();
    let ghost start = prompt@;
    if existing_badges.len() > 0 {
        append_str(&mut prompt, PROMPT_ASSIGNED);
        let ghost head = prompt@;
        let n = existing_badges.len();
        for i in 0..n
            invariant
                n == existing_badges@.len(),
                prompt@ == head + assigned_lines(existing_badges@.take(i as int)),
        {
            let b = &existing_badges[i];
            let label = badge_ai_key(b.github_repo.as_str(), b.subpath.as_str());
            append_string(&mut prompt, &label);
            append_str(&mut prompt, " → ");
            append_string(&mut prompt, &b.short_name);
            append_str(&mut prompt, "\n");
            assert(existing_badges@.take(i + 1).drop_last() =~= existing_badges@.take(i as int));
        }
        assert(existing_badges@.take(n as int) =~= existing_badges@);
    }
    let ghost middle = prompt@;
    append_str(&mut prompt, PROMPT_REQUEST);
    let ghost head = prompt@;
    let m = new_repos.len();
    for i in 0..m
        invariant
            m == new_repos@.len(),
            prompt@ == head + request_lines(new_repos@.take(i as int)),
    {
        let label = badge_ai_key(new_repos[i].0.as_str(), new_repos[i].1.as_str());
        append_string(&mut prompt, &label);
        append_str(&mut prompt, "\n");
        assert(new_repos@.take(i + 1).drop_last() =~= new_repos@.take(i as int));
    }
    assert(new_repos@.take(m as int) =~= new_repos@);
    append_str(&mut prompt, PROMPT_OUTRO);
    assert(prompt@ =~= badge_prompt(existing_badges@, new_repos@));
    prompt
}

/// The prompt lists each repository to name on a line of its own whose text
/// is exactly the key under which the answer's name for it is looked up.
pub proof fn lemma_prompt_line_is_lookup_key(repos: Seq<(String, String)>, i: int)
    requires
        0 <= i < repos.len(),
    ensures
        request_lines(repos.take(i + 1)) == request_lines(repos.take(i)) + repo_label(
            repos[i].0@,
            repos[i].1@,
        ) + "\n"@,
{
    assert(repos.take(i + 1).drop_last() =~= repos.take(i));
}

// ---------------------------------------------------------------------------
// The answer
// ---------------------------------------------------------------------------

/// Three backquotes.
pub open spec fn fence() -> Seq<char> {
    seq!['`', '`', '`']
}

/// Three backquotes and `json`.
pub open spec fn json_fence() -> Seq<char> {
    seq!['`', '`', '`', 'j', 's', 'o', 'n']
}

/// The JSON text inside an answer: the trimmed answer, or, when it is
/// wrapped in a code fence (opened by ```` ```json ```` or ```` ``` ```` and
/// closed by ```` ``` ````), what the fence holds.
pub open spec fn answer_payload(answer: Seq<char>) -> Seq<char> {
    let t = trimmed(answer);
    let inner = if has_prefix(t, json_fence()) {
        Some(t.subrange(7, t.len() as int))
    } else if has_prefix(t, fence()) {
        Some(t.subrange(3, t.len() as int))
    } else {
        None
    };
    match inner {
        Some(s) => if has_suffix(s, fence()) {
            s.subrange(0, s.len() - 3)
        } else {
            t
        },
        None => t,
    }
}

/// The JSON text inside an AI answer (see `answer_payload`).
pub fn extract_answer_payload(answer: &str) -> (res: String)
    ensures
        res@ == answer_payload(answer@),
{
    let cs = chars_of(answer);
    let (a, b) = trim_bounds(cs.as_slice());
    let t = string_from_range(cs.as_slice(), a, b);
    let tc = chars_of(t.as_str());
    let json_fence_v: Vec<char> = vec!['`', '`', '`', 'j', 's', 'o', 'n'];
    let fence_v: Vec<char> = vec!['`', '`', '`'];
    assert(json_fence_v@ =~= json_fence());
    assert(fence_v@ =~= fence());
    let start: usize = if starts_with(tc.as_slice(), json_fence_v.as_slice()) {
        7
    } else if starts_with(tc.as_slice(), fence_v.as_slice()) {
        3
    } else {
        return t;
    };
    let inner = string_from_range(tc.as_slice(), start, tc.len());
    let ic = chars_of(inner.as_str());
    if ends_with(ic.as_slice(), fence_v.as_slice()) {
        string_from_range(ic.as_slice(), 0, ic.len() - 3)
    } else {
        t
    }
}

/// What `serde_json` reads from a JSON object whose values are all strings:
/// the map from each key to its value (the last one, for a repeated key);
/// `None` for any other text.
pub uninterp spec fn json_string_map(text: Seq<char>) -> Option<Map<Seq<char>, Seq<char>>>;

/// The pairs hold each key once, and are exactly the entries of `m`.
pub open spec fn pairs_form_map(pairs: Seq<(String, String)>, m: Map<Seq<char>, Seq<char>>) -> bool {
    &&& forall|i: int, j: int|
        0 <= i < j < pairs.len() ==> #[trigger] pairs[i].0@ != #[trigger] pairs[j].0@
    &&& forall|i: int|
        0 <= i < pairs.len() ==> m.contains_key(#[trigger] pairs[i].0@) && m[pairs[i].0@]
            == pairs[i].1@
    &&& forall|k: Seq<char>|
        #[trigger] m.contains_key(k) ==> exists|i: int| 0 <= i < pairs.len() && #[trigger] pairs[i].0@ == k
}

/// `serde_json::from_str` into a `HashMap<String, String>`, its entries
/// handed over as pairs in the map's (unspecified) order.
#[verifier::external_body]
fn parse_string_map(text: &str) -> (res: Option<Vec<(String, String)>>)
    ensures
        res is Some <==> json_string_map(text@) is Some,
        res matches Some(v) ==> pairs_form_map(v@, json_string_map(text@)->0),
{
    serde_json::from_str::<std::collections::HashMap<String, String>>(text).ok().map(
        |m| m.into_iter().collect(),
    )
}

/// The entries of `m` whose name is a valid short name.
pub open spec fn valid_names(m: Map<Seq<char>, Seq<char>>) -> Map<Seq<char>, Seq<char>> {
    Map::new(|k: Seq<char>| m.contains_key(k) && short_name_problem(m[k]) is None, |k: Seq<char>| m[k])
}

/// The short names an AI answer proposes: the JSON object in the answer
/// (see `answer_payload`), keeping only valid short names; `None` when the
/// answer holds no such object or no valid name.
pub open spec fn proposed_names(answer: Seq<char>) -> Option<Map<Seq<char>, Seq<char>>> {
    match json_string_map(answer_payload(answer)) {
        None => None,
        Some(m) => if valid_names(m) == Map::<Seq<char>, Seq<char>>::empty() {
            None
        } else {
            Some(valid_names(m))
        },
    }
}

/// The pairs of `p` whose name is a valid short name, in order.
pub open spec fn keep_valid(p: Seq<(String, String)>) -> Seq<(String, String)>
    decreases p.len(),
{
    if p.len() == 0 {
        Seq::empty()
    } else if short_name_problem(p.last().1@) is None {
        keep_valid(p.drop_last()).push(p.last())
    } else {
        keep_valid(p.drop_last())
    }
}

/// No key occurs twice.
pub open spec fn distinct_keys(p: Seq<(String, String)>) -> bool {
    forall|i: int, j: int| 0 <= i < j < p.len() ==> #[trigger] p[i].0@ != #[trigger] p[j].0@
}

proof fn lemma_keep_valid_members(p: Seq<(String, String)>)
    ensures
        forall|a: int|
            #![trigger keep_valid(p)[a]]
            0 <= a < keep_valid(p).len() ==> (exists|j: int| 0 <= j < p.len() && p[j] == keep_valid(p)[a])
                && short_name_problem(keep_valid(p)[a].1@) is None,
    decreases p.len(),
{
    if p.len() > 0 {
        let q = p.drop_last();
        lemma_keep_valid_members(q);
        let r = keep_valid(q);
        let k = keep_valid(p);
        assert forall|a: int| #![trigger k[a]] 0 <= a < k.len() implies (exists|j: int| 0 <= j < p.len() && p[j] == k[a])
            && short_name_problem(k[a].1@) is None by {
            if a < r.len() {
                assert(k[a] == r[a]);
                let j = choose|j: int| 0 <= j < q.len() && q[j] == r[a];
                assert(p[j] == q[j]);
            } else {
                assert(p[p.len() - 1] == k[a]);
            }
        }
    }
}

proof fn lemma_keep_valid_complete(p: Seq<(String, String)>)
    ensures
        forall|j: int|
            #![trigger p[j]]
            0 <= j < p.len() && short_name_problem(p[j].1@) is None ==> exists|a: int|
                0 <= a < keep_valid(p).len() && keep_valid(p)[a] == p[j],
    decreases p.len(),
{
    if p.len() > 0 {
        let q = p.drop_last();
        lemma_keep_valid_complete(q);
        let r = keep_valid(q);
        let k = keep_valid(p);
        assert forall|j: int| #![trigger p[j]] 0 <= j < p.len() && short_name_problem(p[j].1@) is None implies exists|a: int|
            0 <= a < k.len() && k[a] == p[j] by {
            if j < q.len() {
                assert(q[j] == p[j]);
                let a = choose|a: int| 0 <= a < r.len() && r[a] == q[j];
                assert(k[a] == r[a]);
            } else {
                assert(k[k.len() - 1] == p[j]);
            }
        }
    }
}

proof fn lemma_keep_valid_distinct(p: Seq<(String, String)>)
    requires
        distinct_keys(p),
    ensures
        distinct_keys(keep_valid(p)),
    decreases p.len(),
{
    if p.len() > 0 {
        let q = p.drop_last();
        assert(distinct_keys(q));
        lemma_keep_valid_distinct(q);
        lemma_keep_valid_members(q);
        let r = keep_valid(q);
        let k = keep_valid(p);
        if short_name_problem(p.last().1@) is None {
            assert forall|a: int, b: int| 0 <= a < b < k.len() implies #[trigger] k[a].0@ != #[trigger] k[b].0@ by {
                if b < r.len() {
                    assert(k[a] == r[a] && k[b] == r[b]);
                } else {
                    assert(k[a] == r[a]);
                    let j = choose|j: int| 0 <= j < q.len() && q[j] == r[a];
                    assert(p[j] == q[j]);
                    assert(k[b] == p[p.len() - 1]);
                }
            }
        }
    }
}

proof fn lemma_kept_entries_are_valid_names(parsed: Seq<(String, String)>, m: Map<Seq<char>, Seq<char>>)
    requires
        pairs_form_map(parsed, m),
    ensures
        forall|a: int|
            0 <= a < keep_valid(parsed).len() ==> valid_names(m).contains_key(
                #[trigger] keep_valid(parsed)[a].0@,
            ) && valid_names(m)[keep_valid(parsed)[a].0@] == keep_valid(parsed)[a].1@,
{
    lemma_keep_valid_members(parsed);
    let k = keep_valid(parsed);
    assert forall|a: int| 0 <= a < k.len() implies valid_names(m).contains_key(#[trigger] k[a].0@)
        && valid_names(m)[k[a].0@] == k[a].1@ by {
        let j = choose|j: int| 0 <= j < parsed.len() && parsed[j] == k[a];
        assert(m.contains_key(parsed[j].0@) && m[parsed[j].0@] == parsed[j].1@);
    }
}

proof fn lemma_valid_names_are_kept(parsed: Seq<(String, String)>, m: Map<Seq<char>, Seq<char>>)
    requires
        pairs_form_map(parsed, m),
    ensures
        forall|key: Seq<char>|
            #[trigger] valid_names(m).contains_key(key) ==> exists|a: int|
                0 <= a < keep_valid(parsed).len() && #[trigger] keep_valid(parsed)[a].0@ == key,
{
    lemma_keep_valid_complete(parsed);
    let k = keep_valid(parsed);
    assert forall|key: Seq<char>| #[trigger] valid_names(m).contains_key(key) implies exists|a: int|
        0 <= a < k.len() && #[trigger] k[a].0@ == key by {
        assert(m.contains_key(key));
        let j = choose|j: int| 0 <= j < parsed.len() && #[trigger] parsed[j].0@ == key;
        assert(m[key] == parsed[j].1@);
        assert(short_name_problem(parsed[j].1@) is None);
        let a = choose|a: int| 0 <= a < k.len() && k[a] == parsed[j];
        assert(k[a].0@ == key);
    }
}

proof fn lemma_kept_pairs_form_valid_names(parsed: Seq<(String, String)>, m: Map<Seq<char>, Seq<char>>)
    requires
        pairs_form_map(parsed, m),
    ensures
        pairs_form_map(keep_valid(parsed), valid_names(m)),
        keep_valid(parsed).len() == 0 <==> valid_names(m) == Map::<Seq<char>, Seq<char>>::empty(),
{
    assert(distinct_keys(parsed));
    lemma_keep_valid_distinct(parsed);
    lemma_kept_entries_are_valid_names(parsed, m);
    lemma_valid_names_are_kept(parsed, m);
    let k = keep_valid(parsed);
    let good = valid_names(m);
    if k.len() == 0 {
        assert(good =~= Map::<Seq<char>, Seq<char>>::empty()) by {
            assert forall|key: Seq<char>| !good.contains_key(key) by {
                if good.contains_key(key) {
                    let a = choose|a: int| 0 <= a < k.len() && #[trigger] k[a].0@ == key;
                }
            }
        }
    } else {
        assert(good.contains_key(k[0].0@));
        assert(!Map::<Seq<char>, Seq<char>>::empty().contains_key(k[0].0@));
    }
}

/// Reads the short names proposed by an AI answer, as pairs from each
/// input key to its name.
pub fn short_names_from_response(response: &str) -> (res: Option<Vec<(String, String)>>)
    ensures
        res is Some <==> proposed_names(response@) is Some,
        res matches Some(v) ==> pairs_form_map(v@, proposed_names(response@)->0),
{
    let payload = extract_answer_payload(response);
    let parsed = match parse_string_map(payload.as_str()) {
        None => return None,
        Some(p) => p,
    };
    let mut kept: Vec<(String, String)> = Vec::new();
    let n = parsed.len();
    for i in 0..n
        invariant
            n == parsed@.len(),
            kept@ == keep_valid(parsed@.take(i as int)),
    {
        assert(parsed@.take(i + 1).drop_last() =~= parsed@.take(i as int));
        assert(parsed@.take(i + 1).last() == parsed@[i as int]);
        let entry = &parsed[i];
        if check_short_name(&entry.1).is_none() {
            kept.push((entry.0.clone(), entry.1.clone()));
        }
    }
    proof {
        assert(parsed@.take(n as int) =~= parsed@);
        lemma_kept_pairs_form_valid_names(parsed@, json_string_map(payload@)->0);
    }
    if kept.len() == 0 {
        None
    } else {
        Some(kept)
    }
}

/// A short name the AI proposes is kept exactly when `update_repo_badge`
/// would accept it as it stands.
pub proof fn lemma_proposed_names_pass_validation(answer: Seq<char>, key: Seq<char>)
    requires
        proposed_names(answer) is Some,
        proposed_names(answer)->0.contains_key(key),
    ensures
        short_name_problem(trimmed(proposed_names(answer)->0[key])) is None,
        trimmed(proposed_names(answer)->0[key]) == proposed_names(answer)->0[key],
{
    let m = json_string_map(answer_payload(answer))->0;
    assert(short_name_problem(m[key]) is None);
    lemma_valid_name_is_trimmed(m[key]);
}

/// The name stored under `key` in `pairs`, first match.
pub open spec fn lookup_name(pairs: Seq<(String, String)>, key: Seq<char>) -> Option<Seq<char>>
    decreases pairs.len(),
{
    if pairs.len() == 0 {
        None
    } else if pairs[0].0@ == key {
        Some(pairs[0].1@)
    } else {
        lookup_name(pairs.drop_first(), key)
    }
}

/// Views of a slice of strings.
pub open spec fn views(s: Seq<String>) -> Seq<Seq<char>> {
    s.map_values(|x: String| x@)
}

/// The view of an optional string.
pub open spec fn opt_view(o: Option<String>) -> Option<Seq<char>> {
    match o {
        Some(s) => Some(s@),
        None => None,
    }
}

/// The name an AI answer proposes for the repository with key `key`, unless
/// another badge already has it; `None` sends the caller to its fallback.
pub fn ai_short_name_for(ai_names: Option<&Vec<(String, String)>>, key: &str, taken: &[String]) -> (res:
    Option<String>)
    ensures
        opt_view(res) == match ai_names {
            None => None,
            Some(v) => match lookup_name(v@, key@) {
                Some(n) => if views(taken@).contains(n) {
                    None
                } else {
                    Some(n)
                },
                None => None,
            },
        },
{
    let names = match ai_names {
        None => return None,
        Some(v) => v,
    };
    let key_s = key.to_owned();
    let n = names.len();
    let mut found: Option<usize> = None;
    let mut i: usize = 0;
    assert(names@.subrange(0, n as int) =~= names@);
    while i < n && found.is_none()
        invariant
            n == names@.len(),
            i <= n,
            key_s@ == key@,
            found is None ==> lookup_name(names@, key@) == lookup_name(names@.subrange(i as int, n as int), key@),
            found matches Some(k) ==> k < n && lookup_name(names@, key@) == Some(names@[k as int].1@),
        decreases n - i,
    {
        proof {
            let rest = names@.subrange(i as int, n as int);
            assert(rest.drop_first() =~= names@.subrange(i + 1, n as int));
            assert(rest[0] == names@[i as int]);
        }
        if names[i].0 == key_s {
            found = Some(i);
        }
        i = i + 1;
    }
    let k = match found {
        None => {
            proof {
                if i == n {
                    assert(names@.subrange(n as int, n as int).len() == 0);
                }
            }
            return None;
        },
        Some(k) => k,
    };
    let name = &names[k].1;
    let t = taken.len();
    for j in 0..t
        invariant
            t == taken@.len(),
            k < names@.len(),
            ai_names == Some(names),
            name == &names@[k as int].1,
            lookup_name(names@, key@) == Some(names@[k as int].1@),
            forall|a: int| 0 <= a < j ==> taken@[a]@ != name@,
    {
        if taken[j] == *name {
            assert(views(taken@)[j as int] == name@);
            return None;
        }
    }
    proof {
        if views(taken@).contains(name@) {
            let a = choose|a: int| 0 <= a < views(taken@).len() && views(taken@)[a] == name@;
            assert(taken@[a]@ == name@);
        }
    }
    Some(name.clone())
}

// ---------------------------------------------------------------------------
// Providers
// ---------------------------------------------------------------------------

/// The first recently used provider that is available, else the first
/// available one.
pub open spec fn preferred_provider(available: Seq<Seq<char>>, recent: Seq<Seq<char>>) -> Option<
    Seq<char>,
>
    decreases recent.len(),
{
    if recent.len() == 0 {
        if available.len() > 0 {
            Some(available[0])
        } else {
            None
        }
    } else if available.contains(recent[0]) {
        Some(recent[0])
    } else {
        preferred_provider(available, recent.drop_first())
    }
}

/// The provider to use when none is chosen: the most recent one that is
/// still available, else the first available one.
pub fn select_preferred_provider(available_ids: &[String], recent_ids: &[String]) -> (res: Option<
    String,
>)
    ensures
        opt_view(res) == preferred_provider(views(available_ids@), views(recent_ids@)),
{
    let r = recent_ids.len();
    let a = available_ids.len();
    assert(views(recent_ids@).subrange(0, r as int) =~= views(recent_ids@));
    for i in 0..r
        invariant
            r == recent_ids@.len(),
            a == available_ids@.len(),
            preferred_provider(views(available_ids@), views(recent_ids@)) == preferred_provider(
                views(available_ids@),
                views(recent_ids@).subrange(i as int, r as int),
            ),
    {
        let ghost rest = views(recent_ids@).subrange(i as int, r as int);
        assert(rest.drop_first() =~= views(recent_ids@).subrange(i + 1, r as int));
        assert(rest[0] == recent_ids@[i as int]@);
        for j in 0..a
            invariant
                r == recent_ids@.len(),
                a == available_ids@.len(),
                i < r,
                forall|b: int| 0 <= b < j ==> available_ids@[b]@ != recent_ids@[i as int]@,
                preferred_provider(views(available_ids@), views(recent_ids@)) == preferred_provider(
                    views(available_ids@),
                    views(recent_ids@).subrange(i as int, r as int),
                ),
                views(recent_ids@).subrange(i as int, r as int)[0] == recent_ids@[i as int]@,
        {
            if available_ids[j] == recent_ids[i] {
                assert(views(available_ids@)[j as int] == recent_ids@[i as int]@);
                return Some(recent_ids[i].clone());
            }
        }
        proof {
            if views(available_ids@).contains(recent_ids@[i as int]@) {
                let b = choose|b: int| 0 <= b < views(available_ids@).len() && views(available_ids@)[b] == recent_ids@[i as int]@;
                assert(available_ids@[b]@ == recent_ids@[i as int]@);
            }
        }
    }
    proof {
        assert(views(recent_ids@).subrange(r as int, r as int).len() == 0);
    }
    if a > 0 {
        Some(available_ids[0].clone())
    } else {
        None
    }
}

/// The provider for badge names: the given one, trimmed, when it is not
/// blank; else the preferred available one.
pub open spec fn badge_provider(
    provider: Option<Seq<char>>,
    available: Seq<Seq<char>>,
    recent: Seq<Seq<char>>,
) -> Option<Seq<char>> {
    match provider {
        Some(p) => if trimmed(p).len() > 0 {
            Some(trimmed(p))
        } else {
            preferred_provider(available, recent)
        },
        None => preferred_provider(available, recent),
    }
}

/// The provider for badge names (see `badge_provider`).
pub fn badge_provider_id(provider: Option<&str>, available_ids: &[String], recent_ids: &[String]) -> (res:
    Option<String>)
    ensures
        opt_view(res) == badge_provider(
            match provider {
                Some(p) => Some(p@),
                None => None,
            },
            views(available_ids@),
            views(recent_ids@),
        ),
{
    if let Some(p) = provider {
        let t = trim_string(p);
        if !t.as_str().is_empty() {
            return Some(t);
        }
    }
    select_preferred_provider(available_ids, recent_ids)
}

/// The short names of the badges, in order: the names a new badge may not take.
pub fn taken_names(badges: &[RepoBadge]) -> (res: Vec<String>)
    ensures
        views(res@) == badges@.map_values(|b: RepoBadge| b.short_name@),
{
    let n = badges.len();
    let mut out: Vec<String> = Vec::new();
    for i in 0..n
        invariant
            n == badges@.len(),
            views(out@) == badges@.take(i as int).map_values(|b: RepoBadge| b.short_name@),
    {
        let ghost before = out@;
        out.push(badges[i].short_name.clone());
        assert(views(out@) =~= views(before).push(badges@[i as int].short_name@));
        assert(badges@.take(i + 1).map_values(|b: RepoBadge| b.short_name@) =~= badges@.take(i as int).map_values(
            |b: RepoBadge| b.short_name@,
        ).push(badges@[i as int].short_name@));
    }
    assert(badges@.take(n as int) =~= badges@);
    out
}

/// The short name a new badge gets: the AI's proposal for its key when
/// there is one that is not taken yet, else `fallback` (the store's
/// generated name).
pub fn choose_short_name(
    ai_names: Option<&Vec<(String, String)>>,
    key: &str,
    taken: &[String],
    fallback: String,
) -> (res: String)
    ensures
        res@ == match ai_names {
            Some(v) => match lookup_name(v@, key@) {
                Some(n) => if views(taken@).contains(n) {
                    fallback@
                } else {
                    n
                },
                None => fallback@,
            },
            None => fallback@,
        },
        !views(taken@).contains(fallback@) ==> !views(taken@).contains(res@),
{
    match ai_short_name_for(ai_names, key, taken) {
        Some(n) => n,
        None => fallback,
    }
}

/// The short name for the next new badge of a batch: the AI's proposal
/// under the repository's key (`badge_ai_key`) when it is not taken yet,
/// else `fallback`. A name that no badge has yet stays unique.
pub fn badge_name_for(
    ai_names: Option<&Vec<(String, String)>>,
    github_repo: &str,
    subpath: &str,
    taken: &[String],
    fallback: String,
) -> (res: String)
    ensures
        res@ == match ai_names {
            Some(v) => match lookup_name(v@, repo_label(github_repo@, subpath@)) {
                Some(n) => if views(taken@).contains(n) {
                    fallback@
                } else {
                    n
                },
                None => fallback@,
            },
            None => fallback@,
        },
        !views(taken@).contains(fallback@) ==> !views(taken@).contains(res@),
{
    let key = badge_ai_key(github_repo, subpath);
    choose_short_name(ai_names, key.as_str(), taken, fallback)
}

/// Records the name of a badge just created, so that later badges of the
/// batch do not take it.
pub fn record_badge_name(taken: &mut Vec<String>, name: String)
    ensures
        views(final(taken)@) == views(old(taken)@).push(name@),
{
    let ghost before = taken@;
    taken.push(name);
    assert(views(taken@) =~= views(before).push(name@));
}

/// The names a batch adds are unique: when each new name is absent from the
/// names taken before it (those of existing badges, `start`, and those the
/// batch added earlier), no two added names are equal and none equals an
/// existing one.
pub proof fn lemma_batch_names_unique(start: Seq<Seq<char>>, added: Seq<Seq<char>>)
    requires
        forall|k: int| 0 <= k < added.len() ==> !(start + added.take(k)).contains(#[trigger] added[k]),
    ensures
        forall|i: int, j: int| 0 <= i < j < added.len() ==> added[i] != added[j],
        forall|i: int| 0 <= i < added.len() ==> !start.contains(#[trigger] added[i]),
{
    assert forall|i: int, j: int| 0 <= i < j < added.len() implies added[i] != added[j] by {
        let prefix = start + added.take(j);
        assert(prefix[start.len() + i] == added[i]);
        assert(!prefix.contains(added[j]));
    }
    assert forall|i: int| 0 <= i < added.len() implies !start.contains(#[trigger] added[i]) by {
        let prefix = start + added.take(i);
        if start.contains(added[i]) {
            let q = choose|q: int| 0 <= q < start.len() && start[q] == added[i];
            assert(prefix[q] == added[i]);
        }
    }
}

// ---------------------------------------------------------------------------
// Ensuring badges
// ---------------------------------------------------------------------------

/// A copy of a badge, field by field.
pub fn copy_badge(b: &RepoBadge) -> (res: RepoBadge)
    ensures
        res == *b,
{
    RepoBadge {
        github_repo: b.github_repo.clone(),
        subpath: b.subpath.clone(),
        short_name: b.short_name.clone(),
        hue_bits: b.hue_bits,
        created_at: b.created_at,
        pinned: b.pinned,
        pin_sort_order: b.pin_sort_order,
        default_branch: match &b.default_branch {
            Some(d) => Some(d.clone()),
            None => None,
        },
    }
}

/// The badges found, in order.
pub open spec fn found_badges(found: Seq<Option<RepoBadge>>) -> Seq<RepoBadge>
    decreases found.len(),
{
    if found.len() == 0 {
        Seq::empty()
    } else {
        match found.last() {
            Some(b) => found_badges(found.drop_last()).push(b),
            None => found_badges(found.drop_last()),
        }
    }
}

/// The repositories whose badge was not found, in order.
pub open spec fn badges_missing(repos: Seq<(String, String)>, found: Seq<Option<RepoBadge>>) -> Seq<(Seq<char>, Seq<char>)>
    decreases found.len(),
{
    if found.len() == 0 {
        Seq::empty()
    } else {
        let rest = badges_missing(repos.drop_last(), found.drop_last());
        if found.last() is None {
            rest.push((repos.last().0@, repos.last().1@))
        } else {
            rest
        }
    }
}

/// The views of a list of (repository, subpath) pairs.
pub open spec fn pair_views(p: Seq<(String, String)>) -> Seq<(Seq<char>, Seq<char>)> {
    p.map_values(|x: (String, String)| (x.0@, x.1@))
}

/// Splits the repositories of `ensure_repo_badges` by whether the store has
/// a badge for them (`found[i]` is what it holds for `repos[i]`): the badges
/// it has, which come first in the answer, and the repositories that need a
/// new one, both in order.
pub fn split_existing_badges(repos: &[(String, String)], found: &[Option<RepoBadge>]) -> (res: (
    Vec<RepoBadge>,
    Vec<(String, String)>,
))
    requires
        repos@.len() == found@.len(),
    ensures
        res.0@ == found_badges(found@),
        pair_views(res.1@) == badges_missing(repos@, found@),
{
    let n = found.len();
    let mut existing: Vec<RepoBadge> = Vec::new();
    let mut missing: Vec<(String, String)> = Vec::new();
    for i in 0..n
        invariant
            n == found@.len() == repos@.len(),
            existing@ == found_badges(found@.take(i as int)),
            pair_views(missing@) == badges_missing(repos@.take(i as int), found@.take(i as int)),
    {
        assert(found@.take(i + 1).drop_last() =~= found@.take(i as int));
        assert(repos@.take(i + 1).drop_last() =~= repos@.take(i as int));
        assert(found@.take(i + 1).last() == found@[i as int]);
        assert(repos@.take(i + 1).last() == repos@[i as int]);
        match &found[i] {
            Some(b) => {
                existing.push(copy_badge(b));
            },
            None => {
                let ghost before = missing@;
                missing.push((repos[i].0.clone(), repos[i].1.clone()));
                assert(pair_views(missing@) =~= pair_views(before).push((repos@[i as int].0@, repos@[i as int].1@)));
            },
        }
    }
    assert(found@.take(n as int) =~= found@);
    assert(repos@.take(n as int) =~= repos@);
    (existing, missing)
}

/// The error when a badge could neither be created nor found afterwards.
pub open spec fn badge_unavailable(github_repo: Seq<char>, subpath: Seq<char>) -> Seq<char> {
    "Failed to create or find badge for "@ + github_repo + "/"@ + subpath
}

/// The badge that the store holds after a failed creation (another call
/// created it first), or the error when there is none.
pub fn badge_after_failed_create(github_repo: &str, subpath: &str, found: Option<RepoBadge>) -> (res: Result<RepoBadge, String>)
    ensures
        match found {
            Some(b) => res == Ok::<RepoBadge, String>(b),
            None => res matches Err(m) && m@ == badge_unavailable(github_repo@, subpath@),
        },
{
    match found {
        Some(b) => Ok(b),
        None => {
            let mut m = "Failed to create or find badge for ".to_owned();
            append_str(&mut m, github_repo);
            append_str(&mut m, "/");
            append_str(&mut m, subpath);
            Err(m)
        },
    }
}

proof fn lemma_preferred_provider_is_available(available: Seq<Seq<char>>, recent: Seq<Seq<char>>)
    requires
        available.len() > 0,
    ensures
        preferred_provider(available, recent) is Some,
        available.contains(preferred_provider(available, recent)->0),
    decreases recent.len(),
{
    if recent.len() == 0 {
        assert(available[0] == available[0]);
    } else if available.contains(recent[0]) {
    } else {
        lemma_preferred_provider_is_available(available, recent.drop_first());
    }
}

/// Which provider names the badges. An explicit provider that is not blank
/// is used, trimmed. Otherwise, when any provider is available, one is
/// always chosen, and it is an available one: a recently used provider that
/// is available when the most recent such exists (the most recent one when
/// it is available), else the first available one; with no recent provider,
/// the first available one. With none available and no explicit one,
/// nothing is chosen.
pub proof fn lemma_badge_provider_choice(
    provider: Option<Seq<char>>,
    available: Seq<Seq<char>>,
    recent: Seq<Seq<char>>,
)
    ensures
        provider is Some && trimmed(provider->0).len() > 0 ==> badge_provider(provider, available, recent) == Some(
            trimmed(provider->0),
        ),
        !(provider is Some && trimmed(provider->0).len() > 0) && available.len() > 0 ==> {
            &&& badge_provider(provider, available, recent) is Some
            &&& available.contains(badge_provider(provider, available, recent)->0)
            &&& recent.len() == 0 ==> badge_provider(provider, available, recent) == Some(available[0])
            &&& recent.len() > 0 && available.contains(recent[0]) ==> badge_provider(provider, available, recent)
                == Some(recent[0])
            &&& (forall|k: int| 0 <= k < recent.len() ==> !available.contains(#[trigger] recent[k]))
                ==> badge_provider(provider, available, recent) == Some(available[0])
        },
        !(provider is Some && trimmed(provider->0).len() > 0) && available.len() == 0 ==> badge_provider(
            provider,
            available,
            recent,
        ) is None,
{
    if available.len() > 0 {
        lemma_preferred_provider_is_available(available, recent);
        lemma_preferred_provider_none_recent(available, recent);
    } else {
        lemma_preferred_provider_none_available(available, recent);
    }
}

proof fn lemma_preferred_provider_none_recent(available: Seq<Seq<char>>, recent: Seq<Seq<char>>)
    requires
        available.len() > 0,
    ensures
        (forall|k: int| 0 <= k < recent.len() ==> !available.contains(#[trigger] recent[k])) ==> preferred_provider(
            available,
            recent,
        ) == Some(available[0]),
    decreases recent.len(),
{
    if recent.len() > 0 {
        if forall|k: int| 0 <= k < recent.len() ==> !available.contains(#[trigger] recent[k]) {
            assert(!available.contains(recent[0]));
            assert forall|k: int| 0 <= k < recent.drop_first().len() implies !available.contains(
                #[trigger] recent.drop_first()[k],
            ) by {
                assert(recent.drop_first()[k] == recent[k + 1]);
            }
        }
        lemma_preferred_provider_none_recent(available, recent.drop_first());
    }
}

proof fn lemma_preferred_provider_none_available(available: Seq<Seq<char>>, recent: Seq<Seq<char>>)
    requires
        available.len() == 0,
    ensures
        preferred_provider(available, recent) is None,
    decreases recent.len(),
{
    if recent.len() > 0 {
        lemma_preferred_provider_none_available(available, recent.drop_first());
    }
}

/// The line a prompt gives an existing badge: its repository, with the
/// subpath in parentheses when it has one, an arrow, and its name.
pub open spec fn assigned_line_text(b: RepoBadge) -> Seq<char> {
    (if b.subpath@.len() == 0 {
        b.github_repo@
    } else {
        b.github_repo@ + " ("@ + b.subpath@ + ")"@
    }) + " → "@ + b.short_name@ + "\n"@
}

/// The line a prompt gives a repository to name.
pub open spec fn request_line_text(r: (String, String)) -> Seq<char> {
    (if r.1@.len() == 0 {
        r.0@
    } else {
        r.0@ + " ("@ + r.1@ + ")"@
    }) + "\n"@
}

proof fn lemma_occurs_in_middle(x: Seq<char>, m: Seq<char>, y: Seq<char>, t: Seq<char>)
    requires
        occurs_in(m, t),
    ensures
        occurs_in(x + m + y, t),
{
    let i = choose|i: int| 0 <= i && i + t.len() <= m.len() && #[trigger] m.subrange(i, i + t.len()) == t;
    let big = x + m + y;
    assert(big.subrange(x.len() + i, x.len() + i + t.len()) =~= m.subrange(i, i + t.len()));
}

proof fn lemma_occurs_after_prefix(p: Seq<char>, t: Seq<char>, big: Seq<char>)
    requires
        (p + t).len() <= big.len(),
        big.subrange(0, (p + t).len() as int) == p + t,
    ensures
        occurs_in(big, t),
{
    let i = p.len() as int;
    let head = big.subrange(0, (p + t).len() as int);
    assert forall|j: int| 0 <= j < t.len() implies big.subrange(i, i + t.len())[j] == t[j] by {
        assert(big.subrange(i, i + t.len())[j] == big[i + j]);
        assert(head[i + j] == big[i + j]);
        assert((p + t)[i + j] == t[j]);
    }
    assert(big.subrange(i, i + t.len()) =~= t);
}

proof fn lemma_assigned_prefix(badges: Seq<RepoBadge>, j: int)
    requires
        0 <= j <= badges.len(),
    ensures
        assigned_lines(badges.take(j)).len() <= assigned_lines(badges).len(),
        assigned_lines(badges).subrange(0, assigned_lines(badges.take(j)).len() as int) == assigned_lines(badges.take(j)),
    decreases badges.len(),
{
    if j == badges.len() {
        assert(badges.take(j) =~= badges);
        assert(assigned_lines(badges).subrange(0, assigned_lines(badges).len() as int) =~= assigned_lines(badges));
    } else {
        let d = badges.drop_last();
        lemma_assigned_prefix(d, j);
        assert(d.take(j) =~= badges.take(j));
        let a = assigned_lines(d);
        let full = assigned_lines(badges);
        assert(full.subrange(0, assigned_lines(badges.take(j)).len() as int) =~= a.subrange(0, assigned_lines(badges.take(j)).len() as int));
    }
}

proof fn lemma_request_prefix(repos: Seq<(String, String)>, j: int)
    requires
        0 <= j <= repos.len(),
    ensures
        request_lines(repos.take(j)).len() <= request_lines(repos).len(),
        request_lines(repos).subrange(0, request_lines(repos.take(j)).len() as int) == request_lines(repos.take(j)),
    decreases repos.len(),
{
    if j == repos.len() {
        assert(repos.take(j) =~= repos);
        assert(request_lines(repos).subrange(0, request_lines(repos).len() as int) =~= request_lines(repos));
    } else {
        let d = repos.drop_last();
        lemma_request_prefix(d, j);
        assert(d.take(j) =~= repos.take(j));
        let a = request_lines(d);
        let full = request_lines(repos);
        assert(full.subrange(0, request_lines(repos.take(j)).len() as int) =~= a.subrange(0, request_lines(repos.take(j)).len() as int));
    }
}

/// The prompt keeps the AI from reusing names: when there are existing
/// badges, it holds the "Already assigned" heading and a line for every
/// existing badge (its repository and name); and it holds a line for every
/// repository to name.
pub proof fn lemma_prompt_lists_badges_and_repos(badges: Seq<RepoBadge>, repos: Seq<(String, String)>)
    ensures
        badges.len() > 0 ==> occurs_in(badge_prompt(badges, repos), PROMPT_ASSIGNED@),
        forall|k: int| 0 <= k < badges.len() ==> occurs_in(badge_prompt(badges, repos), #[trigger] assigned_line_text(badges[k])),
        forall|k: int| 0 <= k < repos.len() ==> occurs_in(badge_prompt(badges, repos), #[trigger] request_line_text(repos[k])),
{
    let prompt = badge_prompt(badges, repos);
    let mid = if badges.len() > 0 {
        PROMPT_ASSIGNED@ + assigned_lines(badges)
    } else {
        Seq::empty()
    };
    assert(prompt == PROMPT_INTRO@ + mid + (PROMPT_REQUEST@ + request_lines(repos) + PROMPT_OUTRO@)) by {
        assert(prompt =~= PROMPT_INTRO@ + mid + (PROMPT_REQUEST@ + request_lines(repos) + PROMPT_OUTRO@));
    }
    if badges.len() > 0 {
        let t = PROMPT_ASSIGNED@;
        assert(mid.subrange(0, t.len() as int) =~= t);
        assert(occurs_in(mid, t)) by {
            assert(mid.subrange(0int, 0int + t.len()) =~= t);
        }
        lemma_occurs_in_middle(PROMPT_INTRO@, mid, PROMPT_REQUEST@ + request_lines(repos) + PROMPT_OUTRO@, t);
    }
    assert forall|k: int| 0 <= k < badges.len() implies occurs_in(prompt, #[trigger] assigned_line_text(badges[k])) by {
        let line = assigned_line_text(badges[k]);
        lemma_assigned_prefix(badges, k + 1);
        let pk = assigned_lines(badges.take(k));
        assert(badges.take(k + 1).drop_last() =~= badges.take(k));
        assert(badges.take(k + 1).last() == badges[k]);
        assert(assigned_lines(badges.take(k + 1)) =~= pk + line);
        lemma_occurs_after_prefix(pk, line, assigned_lines(badges));
        lemma_occurs_in_middle(PROMPT_ASSIGNED@, assigned_lines(badges), Seq::<char>::empty(), line);
        assert(PROMPT_ASSIGNED@ + assigned_lines(badges) + Seq::<char>::empty() =~= mid);
        lemma_occurs_in_middle(PROMPT_INTRO@, mid, PROMPT_REQUEST@ + request_lines(repos) + PROMPT_OUTRO@, line);
    }
    assert forall|k: int| 0 <= k < repos.len() implies occurs_in(prompt, #[trigger] request_line_text(repos[k])) by {
        let line = request_line_text(repos[k]);
        lemma_request_prefix(repos, k + 1);
        let pk = request_lines(repos.take(k));
        assert(repos.take(k + 1).drop_last() =~= repos.take(k));
        assert(repos.take(k + 1).last() == repos[k]);
        assert(request_lines(repos.take(k + 1)) =~= pk + line);
        lemma_occurs_after_prefix(pk, line, request_lines(repos));
        lemma_occurs_in_middle(PROMPT_REQUEST@, request_lines(repos), PROMPT_OUTRO@, line);
        lemma_occurs_in_middle(PROMPT_INTRO@ + mid, PROMPT_REQUEST@ + request_lines(repos) + PROMPT_OUTRO@, Seq::<char>::empty(), line);
        assert(PROMPT_INTRO@ + mid + (PROMPT_REQUEST@ + request_lines(repos) + PROMPT_OUTRO@) + Seq::<char>::empty() =~= prompt);
        assert(PROMPT_REQUEST@ + request_lines(repos) + PROMPT_OUTRO@ =~= (PROMPT_REQUEST@ + request_lines(repos)) + PROMPT_OUTRO@);
    }
}

} // verus!
