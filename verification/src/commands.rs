//! The closed command set: canonical names, the registration table, and
//! parsing of raw message text into typed commands.
//!
//! A command is recognized only when the text begins with the `/` prefix
//! character followed by the canonical lowercase name of a known variant,
//! optionally followed by `@bot_name` and/or trailing arguments (no command
//! takes parameters, so arguments are ignored). Anything else is not a
//! command — never an error.

use vstd::prelude::*;

verus! {

/// Commands supported by the bot.
#[derive(Clone, Copy, Debug, PartialEq, Eq, Structural)]
pub enum Command {
    /// Start interaction with the bot.
    Start,
}

/// Length of the prefix of `s` that comes before the first occurrence of
/// `stop` (the whole length when `stop` does not occur).
pub open spec fn spec_prefix_len(s: Seq<char>, stop: char) -> nat
    decreases s.len(),
{
    if s.len() == 0 || s[0] == stop {
        0
    } else {
        1 + spec_prefix_len(s.skip(1), stop)
    }
}

/// The first space-delimited word of the text.
pub open spec fn spec_word(text: Seq<char>) -> Seq<char> {
    text.take(spec_prefix_len(text, ' ') as int)
}

/// The first word with its leading prefix character removed: the candidate
/// command name plus an optional `@mention`.
pub open spec fn spec_token(text: Seq<char>) -> Seq<char> {
    spec_word(text).skip(1)
}

/// The candidate command name: the token up to the first `@`.
pub open spec fn spec_name_part(text: Seq<char>) -> Seq<char> {
    spec_token(text).take(spec_prefix_len(spec_token(text), '@') as int)
}

/// The bot mention attached to the command, when one is present.
pub open spec fn spec_mention(text: Seq<char>) -> Option<Seq<char>> {
    let token = spec_token(text);
    let at = spec_prefix_len(token, '@');
    if at < token.len() {
        Some(token.skip(at as int + 1))
    } else {
        None
    }
}

/// The variant-to-name table read in reverse: the command whose canonical
/// name is `name`, if any. Adding a variant adds one line here and one in
/// the name table; the matching logic itself does not change.
pub open spec fn spec_command_of_name(name: Seq<char>) -> Option<Command> {
    if name == (Command::Start).spec_name() {
        Some(Command::Start)
    } else {
        None
    }
}

/// What parsing yields on `text` addressed to the bot called `bot_name`:
/// the first word must begin with `/`; its part after the prefix and
/// before any `@mention` must be the canonical name of a known command;
/// a mention, when present, must name this bot. Trailing words are
/// arguments and are ignored.
pub open spec fn spec_parse(text: Seq<char>, bot_name: Seq<char>) -> Option<Command> {
    if spec_word(text).len() == 0 || spec_word(text)[0] != '/' {
        None
    } else if spec_mention(text) matches Some(mention) && mention != bot_name {
        None
    } else {
        spec_command_of_name(spec_name_part(text))
    }
}

/// The canonical wire text of a command: the `/` prefix followed by its
/// canonical name.
pub open spec fn spec_canonical_text(c: Command) -> Seq<char> {
    seq!['/'] + c.spec_name()
}

impl Command {
    /// The canonical lowercase name by which the command is written after
    /// the `/` prefix and registered with the platform.
    pub open spec fn spec_name(&self) -> Seq<char> {
        match self {
            Command::Start => "start"@,
        }
    }

    /// The canonical lowercase name of this command.
    pub fn name(&self) -> (name: &'static str)
        ensures
            name@ == self.spec_name(),
    {
        match self {
            Command::Start => "start",
        }
    }

    /// The human-readable description registered with the platform.
    pub open spec fn spec_description(&self) -> Seq<char> {
        match self {
            Command::Start => "Start interaction with the bot"@,
        }
    }

    /// The description of this command.
    pub fn description(&self) -> (description: &'static str)
        ensures
            description@ == self.spec_description(),
    {
        match self {
            Command::Start => "Start interaction with the bot",
        }
    }

    /// Every command variant, in registration order.
    pub open spec fn spec_all() -> Seq<Command> {
        seq![Command::Start]
    }

    /// Every command variant, in registration order.
    pub fn all() -> (commands: Vec<Command>)
        ensures
            commands@ == Command::spec_all(),
    {
        let mut commands: Vec<Command> = Vec::new();
        commands.push(Command::Start);
        proof {
            assert(commands@ =~= Command::spec_all());
        }
        commands
    }

    /// The welcome message sent in reply to the start command.
    pub fn start_message() -> (message: &'static str)
        ensures
            message@ == "Hello World"@,
    {
        "Hello World"
    }

    /// The (name, description) pairs to register with the transport
    /// client, one per variant, in registration order.
    pub fn bot_commands() -> (list: Vec<(String, String)>)
        ensures
            list@.len() == Command::spec_all().len(),
            forall|i: int|
                0 <= i < list@.len() ==> (#[trigger] list@[i]).0@ == Command::spec_all()[i].spec_name()
                    && list@[i].1@ == Command::spec_all()[i].spec_description(),
    {
        let commands = Command::all();
        let mut list: Vec<(String, String)> = Vec::new();
        let mut k: usize = 0;
        while k < commands.len()
            invariant
                commands@ == Command::spec_all(),
                k <= commands@.len(),
                list@.len() == k,
                forall|i: int|
                    0 <= i < k ==> (#[trigger] list@[i]).0@ == Command::spec_all()[i].spec_name()
                        && list@[i].1@ == Command::spec_all()[i].spec_description(),
            decreases commands@.len() - k,
        {
            let c = commands[k];
            list.push((String::from_str(c.name()), String::from_str(c.description())));
            k = k + 1;
        }
        list
    }

    /// Parses raw message text addressed to the bot called `bot_name`
    /// into a typed command; text that is not a command yields `None`.
    pub fn parse(text: &str, bot_name: &str) -> (parsed: Option<Command>)
        ensures
            parsed == spec_parse(text@, bot_name@),
    {
        let text_len = text.unicode_len();
        let word_end = find_char(text, 0, text_len, ' ');
        proof {
            lemma_prefix_len_from_bounds(text@, ' ', word_end as int);
            assert(spec_word(text@) =~= text@.subrange(0, word_end as int));
        }
        if word_end == 0 {
            return None;
        }
        if text.get_char(0) != '/' {
            proof {
                assert(spec_word(text@)[0] == text@[0]);
            }
            return None;
        }
        proof {
            assert(spec_token(text@) =~= text@.subrange(1, word_end as int));
        }
        let at_end = find_char(text, 1, word_end, '@');
        proof {
            assert forall|j: int| 0 <= j < at_end - 1 implies spec_token(text@)[j] != '@' by {
                assert(spec_token(text@)[j] == text@[j + 1]);
            }
            if at_end < word_end {
                assert(spec_token(text@)[at_end - 1] == text@[at_end as int]);
            }
            lemma_prefix_len_from_bounds(spec_token(text@), '@', at_end - 1);
            assert(spec_name_part(text@) =~= text@.subrange(1, at_end as int));
        }
        if at_end < word_end {
            // a mention is present: it must name this bot
            proof {
                assert(spec_mention(text@) is Some);
                assert(spec_mention(text@)->Some_0 =~= text@.subrange(
                    at_end as int + 1,
                    word_end as int,
                ));
            }
            if !str_range_eq(text, at_end + 1, word_end, bot_name) {
                return None;
            }
        }
        // match the name part against the canonical names of the known commands
        let commands = Command::all();
        let mut k: usize = 0;
        while k < commands.len()
            invariant
                commands@ == Command::spec_all(),
                k <= commands@.len(),
                1 <= at_end <= text@.len(),
                spec_word(text@).len() > 0,
                spec_word(text@)[0] == '/',
                spec_mention(text@) matches Some(mention) ==> mention == bot_name@,
                spec_name_part(text@) == text@.subrange(1, at_end as int),
                forall|j: int|
                    0 <= j < k ==> spec_name_part(text@) != (#[trigger] Command::spec_all()[j]).spec_name(),
            decreases commands@.len() - k,
        {
            let c = commands[k];
            if str_range_eq(text, 1, at_end, c.name()) {
                proof {
                    assert(spec_command_of_name(spec_name_part(text@)) == Some(c));
                }
                return Some(c);
            }
            k = k + 1;
        }
        proof {
            assert(Command::spec_all()[0] == Command::Start);
            assert(spec_name_part(text@) != (Command::Start).spec_name());
        }
        None
    }
}

/// Index of the first occurrence of `stop` in `text` within `[from, to)`,
/// as an absolute index; `to` when it does not occur there.
fn find_char(text: &str, from: usize, to: usize, stop: char) -> (at: usize)
    requires
        from <= to,
        to <= text@.len(),
    ensures
        from <= at <= to,
        forall|j: int| from <= j < at ==> text@[j] != stop,
        at < to ==> text@[at as int] == stop,
{
    let mut i: usize = from;
    while i < to
        invariant
            from <= i <= to,
            to <= text@.len(),
            forall|j: int| from <= j < i ==> text@[j] != stop,
        decreases to - i,
    {
        if text.get_char(i) == stop {
            return i;
        }
        i = i + 1;
    }
    i
}

/// True exactly when the characters of `text` from `from` (inclusive) to
/// `to` (exclusive) spell `pattern`.
fn str_range_eq(text: &str, from: usize, to: usize, pattern: &str) -> (eq: bool)
    requires
        from <= to,
        to <= text@.len(),
    ensures
        eq <==> text@.subrange(from as int, to as int) == pattern@,
{
    let pattern_len = pattern.unicode_len();
    if to - from != pattern_len {
        proof {
            assert(text@.subrange(from as int, to as int).len() == to - from);
        }
        return false;
    }
    let mut i: usize = 0;
    while i < pattern_len
        invariant
            from <= to <= text@.len(),
            pattern_len == pattern@.len(),
            to - from == pattern_len,
            i <= pattern_len,
            forall|j: int| 0 <= j < i ==> text@[from + j] == pattern@[j],
        decreases pattern_len - i,
    {
        if text.get_char(from + i) != pattern.get_char(i) {
            proof {
                assert(text@.subrange(from as int, to as int)[i as int] == text@[from + i]);
            }
            return false;
        }
        i = i + 1;
    }
    proof {
        assert(text@.subrange(from as int, to as int) =~= pattern@);
    }
    true
}

/// Establishes `spec_prefix_len` from a pointwise description of where
/// `stop` first occurs.
proof fn lemma_prefix_len_from_bounds(s: Seq<char>, stop: char, i: int)
    requires
        0 <= i <= s.len(),
        forall|j: int| 0 <= j < i ==> s[j] != stop,
        i < s.len() ==> s[i] == stop,
    ensures
        spec_prefix_len(s, stop) == i,
    decreases s.len(),
{
    if i == 0 {
    } else {
        assert(s[0] != stop);
        assert forall|j: int| 0 <= j < i - 1 implies s.skip(1)[j] != stop by {
            assert(s.skip(1)[j] == s[j + 1]);
        }
        if i - 1 < s.skip(1).len() {
            assert(s.skip(1)[i - 1] == s[i]);
        }
        lemma_prefix_len_from_bounds(s.skip(1), stop, i - 1);
    }
}

/// The prefix before the first `stop` contains no `stop`, ends at `stop`
/// when one occurs, and never reaches past the end.
proof fn lemma_prefix_len_props(s: Seq<char>, stop: char)
    ensures
        spec_prefix_len(s, stop) <= s.len(),
        forall|j: int| 0 <= j < spec_prefix_len(s, stop) ==> s[j] != stop,
        spec_prefix_len(s, stop) < s.len() ==> s[spec_prefix_len(s, stop) as int] == stop,
    decreases s.len(),
{
    if s.len() == 0 || s[0] == stop {
    } else {
        lemma_prefix_len_props(s.skip(1), stop);
        let p = spec_prefix_len(s, stop);
        assert(p == 1 + spec_prefix_len(s.skip(1), stop));
        assert forall|j: int| 0 <= j < p implies s[j] != stop by {
            if j > 0 {
                assert(s.skip(1)[j - 1] == s[j]);
            }
        }
        if p < s.len() {
            assert(s.skip(1)[p - 1] == s[p as int]);
        }
    }
}

/// Round trip: for every command variant, parsing its canonical `/name`
/// text yields exactly that variant, whatever bot the text is addressed to.
pub proof fn lemma_parse_round_trip(c: Command, bot_name: Seq<char>)
    ensures
        spec_parse(spec_canonical_text(c), bot_name) == Some(c),
{
    reveal_strlit("start");
    match c {
        Command::Start => {
            let name = c.spec_name();
            assert(name.len() == 5);
            let text = spec_canonical_text(c);
            assert(text.len() == 6);
            assert(text[0] == '/');
            assert forall|j: int| 0 <= j < text.len() implies text[j] != ' ' && (j >= 1
                ==> text[j] != '@') by {
                if j == 1 {
                    assert(text[j] == 's');
                } else if j == 2 {
                    assert(text[j] == 't');
                } else if j == 3 {
                    assert(text[j] == 'a');
                } else if j == 4 {
                    assert(text[j] == 'r');
                } else if j == 5 {
                    assert(text[j] == 't');
                }
            }
            lemma_prefix_len_from_bounds(text, ' ', text.len() as int);
            assert(spec_word(text) =~= text);
            assert(spec_token(text) =~= name);
            assert forall|j: int| 0 <= j < name.len() implies name[j] != '@' by {
                assert(name[j] == text[j + 1]);
            }
            lemma_prefix_len_from_bounds(name, '@', name.len() as int);
            assert(spec_mention(text) is None);
            assert(spec_name_part(text) =~= name);
        },
    }
}

/// Text that does not begin with the command prefix, or whose name part is
/// not the canonical name of any known command, parses to nothing — it is
/// silently not a command, never an error.
pub proof fn lemma_parse_rejects_non_commands(text: Seq<char>, bot_name: Seq<char>)
    ensures
        text.len() == 0 ==> spec_parse(text, bot_name) is None,
        text.len() > 0 && text[0] != '/' ==> spec_parse(text, bot_name) is None,
        (forall|c: Command| (#[trigger] c.spec_name()) != spec_name_part(text)) ==> spec_parse(
            text,
            bot_name,
        ) is None,
{
    lemma_prefix_len_props(text, ' ');
    if text.len() == 0 {
        assert(spec_word(text).len() == 0);
    } else if text[0] != '/' {
        if spec_word(text).len() > 0 {
            assert(spec_word(text)[0] == text[0]);
        }
    }
    if forall|c: Command| (#[trigger] c.spec_name()) != spec_name_part(text) {
        assert((Command::Start).spec_name() != spec_name_part(text));
        assert(spec_command_of_name(spec_name_part(text)) is None);
    }
}

} // verus!
