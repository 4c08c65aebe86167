//! The logic of the prompt improver: how many versions, the draft prompt from the
//! typed lines, and the text that asks to merge the versions.
use vstd::prelude::*;
use crate::client::responses::InlinedResponse;
use crate::types::response::UsageMetadata;
use crate::text::{decimal, opt_view, owned, parse_usize, parse_usize_spec, push_char, push_decimal};

verus! {

/// The number of versions when none or no number is given.
pub const DEFAULT_VERSION_COUNT: usize = 3;

/// `n` held to the range 1 to 10.
pub open spec fn clamp_versions(n: int) -> int {
    if n < 1 {
        1
    } else if n > 10 {
        10
    } else {
        n
    }
}

/// The number of versions that the value of the variable gives: the number it
/// holds (as `str::parse::<usize>` reads it), else 3; then held to 1 to 10.
pub open spec fn version_count_spec(value: Option<Seq<char>>) -> int {
    clamp_versions(
        match value {
            Some(v) => match parse_usize_spec(v) {
                Some(n) => n,
                None => DEFAULT_VERSION_COUNT as int,
            },
            None => DEFAULT_VERSION_COUNT as int,
        },
    )
}

/// The number of versions to generate, from the value of the variable that sets
/// it (`None` when it is not set), as [`version_count_spec`] says.
pub fn get_version_count(value: Option<&str>) -> (r: usize)
    ensures
        r as int == version_count_spec(match value {
            Some(v) => Some(v@),
            None => None,
        }),
        1 <= r <= 10,
{
    let n = match value {
        Some(v) => match parse_usize(v) {
            Some(n) => n,
            None => DEFAULT_VERSION_COUNT,
        },
        None => DEFAULT_VERSION_COUNT,
    };
    if n < 1 {
        1
    } else if n > 10 {
        10
    } else {
        n
    }
}

/// Whether a typed line ends the input: it is empty.
pub fn ends_input(line: &str) -> (b: bool)
    ensures
        b == (line@.len() == 0),
{
    line.unicode_len() == 0
}

/// The lines before the first empty one.
pub open spec fn lines_before_empty(lines: Seq<Seq<char>>) -> Seq<Seq<char>>
    decreases lines.len(),
{
    if lines.len() == 0 || lines[0].len() == 0 {
        Seq::empty()
    } else {
        seq![lines[0]] + lines_before_empty(lines.drop_first())
    }
}

/// Lines joined with line feeds between them.
pub open spec fn join_lines(lines: Seq<Seq<char>>) -> Seq<char>
    decreases lines.len(),
{
    if lines.len() == 0 {
        Seq::empty()
    } else if lines.len() == 1 {
        lines[0]
    } else {
        join_lines(lines.drop_last()) + seq!['\n'] + lines.last()
    }
}

proof fn lemma_lines_before_empty_prefix(lines: Seq<Seq<char>>, i: int)
    requires
        0 <= i <= lines.len(),
        forall|j: int| 0 <= j < i ==> lines[j].len() != 0,
        i == lines.len() || lines[i].len() == 0,
    ensures
        lines_before_empty(lines) == lines.take(i),
    decreases lines.len(),
{
    if lines.len() > 0 && lines[0].len() != 0 {
        lemma_lines_before_empty_prefix(lines.drop_first(), i - 1);
        assert(seq![lines[0]] + lines.drop_first().take(i - 1) =~= lines.take(i));
    } else {
        assert(lines.take(i) =~= Seq::<Seq<char>>::empty());
    }
}

/// The draft prompt from the typed lines: those before the first empty line,
/// joined with line feeds.
pub fn prompt_from_lines(lines: &[String]) -> (r: String)
    ensures
        r@ == join_lines(lines_before_empty(lines@.map_values(|s: String| s@))),
{
    let ghost ls = lines@.map_values(|s: String| s@);
    let mut r = String::new();
    let mut i: usize = 0;
    while i < lines.len() && !ends_input(lines[i].as_str())
        invariant
            i <= lines@.len(),
            ls == lines@.map_values(|s: String| s@),
            forall|j: int| 0 <= j < i ==> ls[j].len() != 0,
            r@ == join_lines(ls.take(i as int)),
        decreases lines@.len() - i,
    {
        if i > 0 {
            push_char(&mut r, '\n');
        }
        r.append(lines[i].as_str());
        proof {
            let t = ls.take(i as int + 1);
            assert(t.drop_last() =~= ls.take(i as int));
            assert(t.last() == lines@[i as int]@);
            if i == 0 {
                assert(t.len() == 1);
            }
        }
        i = i + 1;
        assert(r@ =~= join_lines(ls.take(i as int)));
    }
    proof {
        lemma_lines_before_empty_prefix(ls, i as int);
    }
    r
}

/// The key of version `i` in the batch: `version_` and the number.
pub fn version_key(i: usize) -> (r: String)
    ensures
        r@ == "version_"@ + decimal(i as nat),
{
    let mut r = owned("version_");
    push_decimal(&mut r, i as u64);
    r
}

/// The file of version `i`: `improved_prompt_`, the number and `.md`.
pub fn version_file(i: usize) -> (r: String)
    ensures
        r@ == "improved_prompt_"@ + decimal(i as nat) + ".md"@,
{
    let mut r = owned("improved_prompt_");
    push_decimal(&mut r, i as u64);
    r.append(".md");
    r
}

/// The opening of the request to merge the versions.
pub const MERGE_INTRO: &'static str = "Please synthesize these improved prompts into one optimized Master Prompt:\n\n";

/// The section of version `n` (counted from 1) in the merge request.
pub open spec fn merge_section(n: nat, prompt: Seq<char>) -> Seq<char> {
    "## Version "@ + decimal(n) + "\n"@ + prompt + "\n\n"@
}

/// The sections of the prompts from position 0, numbered from 1.
pub open spec fn merge_sections(prompts: Seq<Seq<char>>) -> Seq<char>
    decreases prompts.len(),
{
    if prompts.len() == 0 {
        Seq::empty()
    } else {
        merge_sections(prompts.drop_last()) + merge_section(prompts.len(), prompts.last())
    }
}

/// The request to merge the versions: the opening, then one section per version,
/// numbered from 1.
pub fn merge_input(prompts: &[String]) -> (r: String)
    ensures
        r@ == MERGE_INTRO@ + merge_sections(prompts@.map_values(|s: String| s@)),
{
    let ghost ps = prompts@.map_values(|s: String| s@);
    let mut r = owned(MERGE_INTRO);
    let mut i: usize = 0;
    while i < prompts.len()
        invariant
            i <= prompts@.len(),
            ps == prompts@.map_values(|s: String| s@),
            r@ == MERGE_INTRO@ + merge_sections(ps.take(i as int)),
        decreases prompts@.len() - i,
    {
        let ghost before = r@;
        r.append("## Version ");
        push_decimal(&mut r, i as u64 + 1);
        r.append("\n");
        r.append(prompts[i].as_str());
        r.append("\n\n");
        proof {
            let t = ps.take(i as int + 1);
            assert(t.drop_last() =~= ps.take(i as int));
            assert(t.last() == prompts@[i as int]@);
        }
        i = i + 1;
        assert(r@ =~= MERGE_INTRO@ + merge_sections(ps.take(i as int)));
    }
    assert(ps.take(prompts@.len() as int) =~= ps);
    r
}

/// What becomes of one response of the batch.
#[derive(Debug, Clone, PartialEq, Eq)]
pub enum VersionOutcome {
    /// The request failed; `key` names it.
    Failed { key: String },
    /// Version `version` has the text `text`, to be saved.
    Saved { version: usize, text: String },
    /// The response has no text.
    Empty,
}

/// What becomes of the response at position `index` (from 0) of the batch: a
/// failure, named by its key or else by `version_` and its number, when it has an
/// error; else its text as version `index + 1` when it has one; else nothing.
pub fn version_outcome(index: usize, response: &InlinedResponse) -> (r: VersionOutcome)
    requires
        index < usize::MAX,
    ensures
        response.error is Some ==> (r matches VersionOutcome::Failed { key } && key@ == match opt_view(response.key) {
            Some(k) => k,
            None => "version_"@ + decimal(index as nat + 1),
        }),
        response.error is None ==> match response.response {
            Some(g) => match g.text_spec() {
                Some(t) => r matches VersionOutcome::Saved { version, text } && version == index + 1 && text@ == t,
                None => r == VersionOutcome::Empty,
            },
            None => r == VersionOutcome::Empty,
        },
{
    if response.error.is_some() {
        let key = match &response.key {
            Some(k) => k.clone(),
            None => version_key(index + 1),
        };
        return VersionOutcome::Failed { key };
    }
    match &response.response {
        Some(g) => match g.text() {
            Some(t) => VersionOutcome::Saved { version: index + 1, text: owned(t) },
            None => VersionOutcome::Empty,
        },
        None => VersionOutcome::Empty,
    }
}

/// The thinking tokens of a response: none counts as zero.
pub open spec fn thinking_of(usage: UsageMetadata) -> int {
    match usage.thoughts_token_count {
        Some(t) => t as int,
        None => 0,
    }
}

/// Adds the token counts of one response to the totals of input, output and
/// thinking tokens. The sums must fit in `u32`, as `+=` on `u32` asks.
pub fn add_usage(totals: &mut (u32, u32, u32), usage: &UsageMetadata)
    requires
        old(totals).0 + usage.prompt_token_count <= u32::MAX,
        old(totals).1 + usage.candidates_token_count <= u32::MAX,
        old(totals).2 + thinking_of(*usage) <= u32::MAX,
    ensures
        final(totals).0 == old(totals).0 + usage.prompt_token_count,
        final(totals).1 == old(totals).1 + usage.candidates_token_count,
        final(totals).2 == old(totals).2 + thinking_of(*usage),
{
    totals.0 = totals.0 + usage.prompt_token_count;
    totals.1 = totals.1 + usage.candidates_token_count;
    if let Some(thinking) = usage.thoughts_token_count {
        totals.2 = totals.2 + thinking;
    }
}

} // verus!
