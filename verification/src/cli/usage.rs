//! The logic of the Gemini command-line program: commands, arguments, the chat
//! loop's decisions and the text of its tables.
use vstd::prelude::*;
use crate::models::defaults;
use crate::text::{
    chars_of, contains_seq, contains_str, owned, push_char, str_eq, string_of, trim_chars, trim_spec,
};
use crate::types::content::Content;

verus! {

/// A command of the program.
#[derive(Debug, Clone, Copy, PartialEq, Eq, Structural)]
pub enum Command {
    /// `generate` or `gen`: generate with the default model.
    Generate,
    /// `reason`: the reasoning model.
    Reason,
    /// `fast`: the fastest model.
    Fast,
    /// `best`: Gemini 3 Pro with high thinking.
    Best,
    /// `think-low`: Gemini 3 Pro with low thinking.
    ThinkLow,
    /// `search`: Gemini 3 Pro with Google Search grounding.
    Search,
    /// `chat`: an interactive chat.
    Chat,
    /// `models`: the models that the API lists.
    Models,
    /// `available`: the model names this library knows.
    Available,
    /// `model`: information about one model.
    Model,
    /// `count`: count tokens.
    Count,
    /// `embed`: an embedding.
    Embed,
    /// `files`: the uploaded files.
    Files,
    /// `help`, or anything else: the help text.
    Help,
}

/// The command that a word names; `Help` for any other word.
pub open spec fn command_spec(word: Seq<char>) -> Command {
    if word == "generate"@ || word == "gen"@ { Command::Generate }
    else if word == "reason"@ { Command::Reason }
    else if word == "fast"@ { Command::Fast }
    else if word == "best"@ { Command::Best }
    else if word == "think-low"@ { Command::ThinkLow }
    else if word == "search"@ { Command::Search }
    else if word == "chat"@ { Command::Chat }
    else if word == "models"@ { Command::Models }
    else if word == "available"@ { Command::Available }
    else if word == "model"@ { Command::Model }
    else if word == "count"@ { Command::Count }
    else if word == "embed"@ { Command::Embed }
    else if word == "files"@ { Command::Files }
    else { Command::Help }
}

/// The command words of the program, each with the command it names.
pub open spec fn command_table() -> Seq<(Seq<char>, Command)> {
    seq![
        ("generate"@, Command::Generate),
        ("gen"@, Command::Generate),
        ("reason"@, Command::Reason),
        ("fast"@, Command::Fast),
        ("best"@, Command::Best),
        ("think-low"@, Command::ThinkLow),
        ("search"@, Command::Search),
        ("chat"@, Command::Chat),
        ("models"@, Command::Models),
        ("available"@, Command::Available),
        ("model"@, Command::Model),
        ("count"@, Command::Count),
        ("embed"@, Command::Embed),
        ("files"@, Command::Files),
        ("help"@, Command::Help),
    ]
}

/// Each command word names its command, and a word that is none of them asks for
/// the help text.
pub proof fn lemma_command_words(word: Seq<char>)
    ensures
        forall|i: int| 0 <= i < command_table().len() ==> #[trigger] command_spec(command_table()[i].0)
            == command_table()[i].1,
        (forall|i: int| 0 <= i < command_table().len() ==> #[trigger] command_table()[i].0 != word)
            ==> command_spec(word) == Command::Help,
{
    reveal_strlit("generate");
    reveal_strlit("gen");
    reveal_strlit("reason");
    reveal_strlit("fast");
    reveal_strlit("best");
    reveal_strlit("think-low");
    reveal_strlit("search");
    reveal_strlit("chat");
    reveal_strlit("models");
    reveal_strlit("available");
    reveal_strlit("model");
    reveal_strlit("count");
    reveal_strlit("embed");
    reveal_strlit("files");
    reveal_strlit("help");
    let t = command_table();
    assert("generate"@.len() == 8 && "generate"@[0] == 'g');
    assert("gen"@.len() == 3 && "gen"@[0] == 'g');
    assert("reason"@.len() == 6 && "reason"@[0] == 'r');
    assert("fast"@.len() == 4 && "fast"@[0] == 'f');
    assert("best"@.len() == 4 && "best"@[0] == 'b');
    assert("think-low"@.len() == 9 && "think-low"@[0] == 't');
    assert("search"@.len() == 6 && "search"@[0] == 's');
    assert("chat"@.len() == 4 && "chat"@[0] == 'c');
    assert("models"@.len() == 6 && "models"@[0] == 'm');
    assert("available"@.len() == 9 && "available"@[0] == 'a');
    assert("model"@.len() == 5 && "model"@[0] == 'm');
    assert("count"@.len() == 5 && "count"@[0] == 'c');
    assert("embed"@.len() == 5 && "embed"@[0] == 'e');
    assert("files"@.len() == 5 && "files"@[0] == 'f');
    assert("help"@.len() == 4 && "help"@[0] == 'h');
    assert(command_spec(t[0].0) == t[0].1);
    assert(command_spec(t[1].0) == t[1].1);
    assert(command_spec(t[2].0) == t[2].1);
    assert(command_spec(t[3].0) == t[3].1);
    assert(command_spec(t[4].0) == t[4].1);
    assert(command_spec(t[5].0) == t[5].1);
    assert(command_spec(t[6].0) == t[6].1);
    assert(command_spec(t[7].0) == t[7].1);
    assert(command_spec(t[8].0) == t[8].1);
    assert(command_spec(t[9].0) == t[9].1);
    assert(command_spec(t[10].0) == t[10].1);
    assert(command_spec(t[11].0) == t[11].1);
    assert(command_spec(t[12].0) == t[12].1);
    assert(command_spec(t[13].0) == t[13].1);
    assert(command_spec(t[14].0) == t[14].1);
    assert forall|i: int| 0 <= i < t.len() implies #[trigger] command_spec(t[i].0) == t[i].1 by {
        assert(0 <= i < 15);
    }
    if forall|i: int| 0 <= i < t.len() ==> #[trigger] t[i].0 != word {
        assert(t[0].0 != word);
        assert(t[1].0 != word);
        assert(t[2].0 != word);
        assert(t[3].0 != word);
        assert(t[4].0 != word);
        assert(t[5].0 != word);
        assert(t[6].0 != word);
        assert(t[7].0 != word);
        assert(t[8].0 != word);
        assert(t[9].0 != word);
        assert(t[10].0 != word);
        assert(t[11].0 != word);
        assert(t[12].0 != word);
        assert(t[13].0 != word);
    }
}

/// The command of the arguments: that of the first after the program's name, and
/// `Help` when there is none.
pub fn parse_command(args: &[String]) -> (r: Command)
    ensures
        r == if args@.len() > 1 { command_spec(args@[1]@) } else { Command::Help },
        forall|i: int|
            0 <= i < command_table().len() && args@.len() > 1 && args@[1]@ == #[trigger] command_table()[i].0
                ==> r == command_table()[i].1,
{
    proof {
        if args@.len() > 1 {
            lemma_command_words(args@[1]@);
        }
    }
    if args.len() <= 1 {
        return Command::Help;
    }
    let w = args[1].as_str();
    if str_eq(w, "generate") || str_eq(w, "gen") { Command::Generate }
    else if str_eq(w, "reason") { Command::Reason }
    else if str_eq(w, "fast") { Command::Fast }
    else if str_eq(w, "best") { Command::Best }
    else if str_eq(w, "think-low") { Command::ThinkLow }
    else if str_eq(w, "search") { Command::Search }
    else if str_eq(w, "chat") { Command::Chat }
    else if str_eq(w, "models") { Command::Models }
    else if str_eq(w, "available") { Command::Available }
    else if str_eq(w, "model") { Command::Model }
    else if str_eq(w, "count") { Command::Count }
    else if str_eq(w, "embed") { Command::Embed }
    else if str_eq(w, "files") { Command::Files }
    else { Command::Help }
}

/// Words joined with single spaces.
pub open spec fn join_words(words: Seq<Seq<char>>) -> Seq<char>
    decreases words.len(),
{
    if words.len() == 0 {
        Seq::empty()
    } else if words.len() == 1 {
        words[0]
    } else {
        join_words(words.drop_last()) + seq![' '] + words.last()
    }
}

/// The text after the command: the arguments from the third on, joined with
/// spaces, when there are at least two arguments (the text may be empty), and
/// `default` otherwise.
pub fn text_argument(args: &[String], default: &str) -> (r: String)
    ensures
        r@ == if args@.len() >= 2 {
            join_words(args@.skip(2).map_values(|s: String| s@))
        } else {
            default@
        },
{
    if args.len() < 2 {
        return owned(default);
    }
    let ghost ws = args@.skip(2).map_values(|s: String| s@);
    let mut r = String::new();
    let mut i: usize = 2;
    while i < args.len()
        invariant
            2 <= i <= args@.len(),
            ws == args@.skip(2).map_values(|s: String| s@),
            r@ == join_words(ws.take(i - 2)),
        decreases args@.len() - i,
    {
        if i > 2 {
            push_char(&mut r, ' ');
        }
        r.append(args[i].as_str());
        proof {
            let t = ws.take(i - 1);
            assert(t.drop_last() =~= ws.take(i - 2));
            assert(t.last() == args@[i as int]@);
        }
        i = i + 1;
        assert(r@ =~= join_words(ws.take(i - 2)));
    }
    assert(ws.take(args@.len() - 2) =~= ws);
    r
}

/// The model that the `model` command asks about: the third argument, else the
/// default model.
pub fn model_argument(args: &[String]) -> (r: &str)
    ensures
        r@ == if args@.len() > 2 { args@[2]@ } else { defaults::GENERAL@ },
{
    if args.len() > 2 {
        args[2].as_str()
    } else {
        defaults::GENERAL
    }
}

/// A character in ASCII lower case: `A`-`Z` lowered, any other unchanged.
pub open spec fn ascii_lower(c: char) -> char {
    if 'A' <= c && c <= 'Z' {
        ((c as u32) + 32) as char
    } else {
        c
    }
}

/// Two texts are equal up to ASCII case.
pub open spec fn eq_ignore_ascii_case_spec(a: Seq<char>, b: Seq<char>) -> bool {
    a.len() == b.len() && forall|i: int| 0 <= i < a.len() ==> ascii_lower(#[trigger] a[i]) == ascii_lower(b[i])
}

fn lower(c: char) -> (r: char)
    ensures
        r == ascii_lower(c),
{
    if 'A' <= c && c <= 'Z' {
        let u = (c as u32) + 32;
        assert(u < 128);
        char_from_ascii(u)
    } else {
        c
    }
}

fn char_from_ascii(u: u32) -> (c: char)
    requires
        u < 128,
    ensures
        c as u32 == u,
{
    (u as u8) as char
}

/// Whether two texts are equal up to ASCII case.
pub fn eq_ignore_ascii_case(a: &[char], b: &str) -> (r: bool)
    ensures
        r == eq_ignore_ascii_case_spec(a@, b@),
{
    let y = chars_of(b);
    if a.len() != y.len() {
        return false;
    }
    let mut i: usize = 0;
    while i < a.len()
        invariant
            y@ == b@,
            a@.len() == y@.len(),
            i <= a@.len(),
            forall|j: int| 0 <= j < i ==> ascii_lower(#[trigger] a@[j]) == ascii_lower(y@[j]),
        decreases a@.len() - i,
    {
        if lower(a[i]) != lower(y[i]) {
            return false;
        }
        i = i + 1;
    }
    true
}

/// What the chat does with a typed line.
#[derive(Debug, Clone, PartialEq, Eq)]
pub enum ChatAction {
    /// End the chat (`quit` or `exit`, in any ASCII case).
    Quit,
    /// Ignore the line (it is blank).
    Skip,
    /// Send the line, trimmed.
    Send(String),
}

/// What the chat does with a typed line: the line is trimmed; `quit` and `exit` in
/// any ASCII case end the chat, an empty line is skipped, and anything else is sent.
pub fn chat_action(line: &str) -> (r: ChatAction)
    ensures
        ({
            let t = trim_spec(line@);
            &&& (eq_ignore_ascii_case_spec(t, "quit"@) || eq_ignore_ascii_case_spec(t, "exit"@)) ==> r == ChatAction::Quit
            &&& !(eq_ignore_ascii_case_spec(t, "quit"@) || eq_ignore_ascii_case_spec(t, "exit"@)) && t.len() == 0 ==> r == ChatAction::Skip
            &&& !(eq_ignore_ascii_case_spec(t, "quit"@) || eq_ignore_ascii_case_spec(t, "exit"@)) && t.len() > 0 ==> (r matches ChatAction::Send(s) && s@ == t)
        }),
{
    let v = chars_of(line);
    let t = trim_chars(v.as_slice());
    if eq_ignore_ascii_case(t.as_slice(), "quit") || eq_ignore_ascii_case(t.as_slice(), "exit") {
        ChatAction::Quit
    } else if t.len() == 0 {
        ChatAction::Skip
    } else {
        ChatAction::Send(string_of(t.as_slice()))
    }
}

/// What came back for a turn of the chat.
#[derive(Debug, Clone, PartialEq, Eq)]
pub enum ChatReply {
    /// The model answered with this text.
    Answer(String),
    /// The model answered without text.
    NoText,
    /// The request failed.
    Failed,
}

/// Adds the user's turn `text` to the chat history before the history is sent.
pub fn chat_send(history: &mut Vec<Content>, text: &str)
    ensures
        final(history)@.len() == old(history)@.len() + 1,
        final(history)@.drop_last() == old(history)@,
        Content::is_text_content(final(history)@.last(), Some("user"@), text@),
{
    history.push(Content::user(text));
}

/// Updates the chat history with what came back for the turn sent last: an answer
/// is added as the model's turn, an answer without text leaves the history as it
/// is, and a failed request takes the user's turn off again.
pub fn chat_receive(history: &mut Vec<Content>, reply: ChatReply)
    ensures
        match reply {
            ChatReply::Answer(t) => {
                &&& final(history)@.len() == old(history)@.len() + 1
                &&& final(history)@.drop_last() == old(history)@
                &&& Content::is_text_content(final(history)@.last(), Some("model"@), t@)
            },
            ChatReply::NoText => final(history)@ == old(history)@,
            ChatReply::Failed => final(history)@ == if old(history)@.len() > 0 {
                old(history)@.drop_last()
            } else {
                old(history)@
            },
        },
{
    match reply {
        ChatReply::Answer(t) => {
            history.push(Content::model(t.as_str()));
        },
        ChatReply::NoText => {},
        ChatReply::Failed => {
            history.pop();
        },
    }
}

/// A family of models with its own prices.
#[derive(Debug, Clone, Copy, PartialEq, Eq, Structural)]
pub enum PriceTier {
    Gemini3Pro,
    Gemini25Pro,
    Gemini25FlashLite,
    Gemini25Flash,
    Gemini20FlashLite,
    Gemini20Flash,
    Embedding,
}

/// The prices of a model, by the first of these that its name contains:
/// `gemini-3-pro`, `gemini-2.5-pro`, `gemini-2.5-flash-lite`, `gemini-2.5-flash`,
/// `gemini-2.0-flash-lite`, `gemini-2.0-flash`, `embedding`; the prices of
/// Gemini 2.5 Flash when it contains none.
pub open spec fn price_tier_spec(model: Seq<char>) -> PriceTier {
    if contains_seq(model, "gemini-3-pro"@) {
        PriceTier::Gemini3Pro
    } else if contains_seq(model, "gemini-2.5-pro"@) {
        PriceTier::Gemini25Pro
    } else if contains_seq(model, "gemini-2.5-flash-lite"@) {
        PriceTier::Gemini25FlashLite
    } else if contains_seq(model, "gemini-2.5-flash"@) {
        PriceTier::Gemini25Flash
    } else if contains_seq(model, "gemini-2.0-flash-lite"@) {
        PriceTier::Gemini20FlashLite
    } else if contains_seq(model, "gemini-2.0-flash"@) {
        PriceTier::Gemini20Flash
    } else if contains_seq(model, "embedding"@) {
        PriceTier::Embedding
    } else {
        PriceTier::Gemini25Flash
    }
}

/// The prices that apply to `model`, as [`price_tier_spec`] states.
pub fn price_tier(model: &str) -> (r: PriceTier)
    ensures
        r == price_tier_spec(model@),
{
    if contains_str(model, "gemini-3-pro") {
        PriceTier::Gemini3Pro
    } else if contains_str(model, "gemini-2.5-pro") {
        PriceTier::Gemini25Pro
    } else if contains_str(model, "gemini-2.5-flash-lite") {
        PriceTier::Gemini25FlashLite
    } else if contains_str(model, "gemini-2.5-flash") {
        PriceTier::Gemini25Flash
    } else if contains_str(model, "gemini-2.0-flash-lite") {
        PriceTier::Gemini20FlashLite
    } else if contains_str(model, "gemini-2.0-flash") {
        PriceTier::Gemini20Flash
    } else if contains_str(model, "embedding") {
        PriceTier::Embedding
    } else {
        PriceTier::Gemini25Flash
    }
}

impl PriceTier {
    /// The prices per million input and output tokens, in thousandths of a US
    /// dollar (standard tier, prompts up to 200k tokens).
    pub fn prices_per_million(self) -> (r: (u32, u32))
        ensures
            r == match self {
                PriceTier::Gemini3Pro => (2000u32, 12000u32),
                PriceTier::Gemini25Pro => (1250u32, 10000u32),
                PriceTier::Gemini25FlashLite => (100u32, 400u32),
                PriceTier::Gemini25Flash => (300u32, 2500u32),
                PriceTier::Gemini20FlashLite => (75u32, 300u32),
                PriceTier::Gemini20Flash => (100u32, 400u32),
                PriceTier::Embedding => (150u32, 0u32),
            },
    {
        match self {
            PriceTier::Gemini3Pro => (2000, 12000),
            PriceTier::Gemini25Pro => (1250, 10000),
            PriceTier::Gemini25FlashLite => (100, 400),
            PriceTier::Gemini25Flash => (300, 2500),
            PriceTier::Gemini20FlashLite => (75, 300),
            PriceTier::Gemini20Flash => (100, 400),
            PriceTier::Embedding => (150, 0),
        }
    }
}

/// The estimated number of tokens of a text: a quarter of its length in UTF-8
/// bytes, rounded down, and at least one.
pub fn estimated_tokens(text: &str) -> (r: usize)
    ensures
        r == if text.len() / 4 >= 1 { text.len() / 4 } else { 1 },
{
    let q = text.len() / 4;
    if q >= 1 {
        q
    } else {
        1
    }
}

/// The number of bytes of a character in UTF-8.
pub open spec fn char_utf8_len(c: char) -> nat {
    if (c as u32) < 0x80 {
        1
    } else if (c as u32) < 0x800 {
        2
    } else if (c as u32) < 0x10000 {
        3
    } else {
        4
    }
}

/// The number of bytes of a text in UTF-8.
pub open spec fn utf8_len(s: Seq<char>) -> nat
    decreases s.len(),
{
    if s.len() == 0 {
        0
    } else {
        utf8_len(s.drop_last()) + char_utf8_len(s.last())
    }
}

/// Byte `b` of the UTF-8 form of `s` starts a character: it ends some prefix.
pub open spec fn is_char_boundary(s: Seq<char>, b: nat) -> bool {
    exists|k: int| 0 <= k <= s.len() && #[trigger] utf8_len(s.take(k)) == b
}

fn char_len(c: char) -> (n: u128)
    ensures
        n as nat == char_utf8_len(c),
{
    let u = c as u32;
    if u < 0x80 {
        1
    } else if u < 0x800 {
        2
    } else if u < 0x10000 {
        3
    } else {
        4
    }
}

/// `n` spaces.
pub open spec fn spaces(n: nat) -> Seq<char> {
    Seq::new(n, |i: int| ' ')
}

/// `s` fitted to a column of `max_len` bytes: padded with spaces to `max_len`
/// characters when its UTF-8 form fits in `max_len` bytes, and otherwise cut to its
/// first `max_len - 3` bytes followed by `...`. A text that is cut must be at least
/// three bytes wide and have a character boundary there, which `requires` states.
pub fn truncate_str(s: &str, max_len: usize) -> (r: String)
    requires
        utf8_len(s@) > max_len ==> max_len >= 3 && is_char_boundary(s@, (max_len - 3) as nat),
    ensures
        utf8_len(s@) <= max_len ==> r@ == s@ + spaces(if s@.len() < max_len { (max_len - s@.len()) as nat } else { 0 }),
        utf8_len(s@) > max_len ==> exists|k: int|
            0 <= k <= s@.len() && utf8_len(#[trigger] s@.take(k)) == max_len - 3 && r@ == s@.take(k) + "..."@,
{
    let v = chars_of(s);
    let mut acc: u128 = 0;
    let mut i: usize = 0;
    while i < v.len() && acc <= max_len as u128
        invariant
            v@ == s@,
            i <= v@.len(),
            acc as nat == utf8_len(v@.take(i as int)),
            acc <= max_len as u128 + 4,
        decreases v@.len() - i,
    {
        acc = acc + char_len(v[i]);
        i = i + 1;
        assert(v@.take(i as int).drop_last() =~= v@.take(i - 1));
    }
    if acc <= max_len as u128 {
        assert(v@.take(i as int) =~= v@);
        let mut r = owned(s);
        let ghost start = r@;
        let n = v.len();
        if n < max_len {
            let mut k: usize = 0;
            while k < max_len - n
                invariant
                    n < max_len,
                    k <= max_len - n,
                    r@ == start + spaces(k as nat),
                decreases max_len - n - k,
            {
                push_char(&mut r, ' ');
                k = k + 1;
                assert(r@ =~= start + spaces(k as nat));
            }
        } else {
            assert(r@ =~= start + spaces(0));
        }
        r
    } else {
        proof {
            lemma_utf8_len_prefix_monotone(v@, i as int, v@.len() as int);
            assert(v@.take(v@.len() as int) =~= v@);
        }
        let target: u128 = max_len as u128 - 3;
        let len = v.len();
        let mut j: usize = 0;
        let mut b: u128 = 0;
        while b < target
            invariant
                v@ == s@,
                len == v@.len(),
                j <= v@.len(),
                b as nat == utf8_len(v@.take(j as int)),
                b <= target,
                target as nat == max_len - 3,
                is_char_boundary(v@, target as nat),
            decreases v@.len() - j,
        {
            proof {
                if j == v@.len() {
                    let k = choose|k: int| 0 <= k <= v@.len() && #[trigger] utf8_len(v@.take(k)) == target as nat;
                    lemma_utf8_len_prefix_monotone(v@, k, j as int);
                    assert(false);
                }
            }
            let nb = b + char_len(v[j]);
            proof {
                assert(v@.take(j + 1).drop_last() =~= v@.take(j as int));
                if nb > target {
                    let k = choose|k: int| 0 <= k <= v@.len() && #[trigger] utf8_len(v@.take(k)) == target as nat;
                    if k <= j {
                        lemma_utf8_len_prefix_monotone(v@, k, j as int);
                        lemma_utf8_len_strict(v@, k, j as int);
                    } else {
                        lemma_utf8_len_prefix_monotone(v@, j + 1, k);
                    }
                    assert(false);
                }
            }
            b = nb;
            j = j + 1;
        }
        let mut r = owned(s.substring_char(0, j));
        assert(r@ =~= s@.take(j as int));
        r.append("...");
        r
    }
}

proof fn lemma_utf8_len_prefix_monotone(s: Seq<char>, i: int, j: int)
    requires
        0 <= i <= j <= s.len(),
    ensures
        utf8_len(s.take(i)) <= utf8_len(s.take(j)),
    decreases j - i,
{
    if i < j {
        lemma_utf8_len_prefix_monotone(s, i, j - 1);
        assert(s.take(j).drop_last() =~= s.take(j - 1));
    }
}

proof fn lemma_utf8_len_strict(s: Seq<char>, i: int, j: int)
    requires
        0 <= i < j <= s.len(),
    ensures
        utf8_len(s.take(i)) < utf8_len(s.take(j)),
    decreases j - i,
{
    assert(s.take(j).drop_last() =~= s.take(j - 1));
    if i < j - 1 {
        lemma_utf8_len_strict(s, i, j - 1);
    }
}

} // verus!
