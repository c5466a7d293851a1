//! Where the API key comes from: a literal, an environment variable, or what a
//! command prints.

use vstd::prelude::*;
use vstd::string::*;
use vstd::utf8::*;
use crate::config::{Api, ApiView};
use crate::text;
use crate::text_laws;

verus! {

/// The words that `shlex::split` makes of a text, or nothing where the text is
/// no valid shell.
pub uninterp spec fn shell_words(source: Seq<char>) -> Option<Seq<Seq<char>>>;

/// The words that an optional list holds.
pub open spec fn words_in(words: Option<Vec<String>>) -> Option<Seq<Seq<char>>> {
    match words {
        Some(list) => Some(text::texts(list@)),
        None => None,
    }
}

/// A word that means itself in a shell: it holds no quote, no backslash, no
/// blank, no tab, no line feed, and does not start a comment.
pub open spec fn plain_word(word: Seq<char>) -> bool {
    &&& word.len() > 0
    &&& word[0] != '#'
    &&& forall|i: int|
        0 <= i < word.len() ==> {
            let c = #[trigger] word[i];
            c != '"' && c != '\'' && c != '\\' && c != ' ' && c != '\t' && c != '\n'
        }
}

/// Whether `words` is what plain words with one blank between any two come to,
/// where `source` is made so.
pub open spec fn keeps_plain_words(source: Seq<char>, words: Option<Seq<Seq<char>>>) -> bool {
    forall|plain: Seq<Seq<char>>|
        (forall|i: int| 0 <= i < plain.len() ==> plain_word(#[trigger] plain[i])) && source
            == #[trigger] text::joined(plain, seq![' ']) ==> words == Some(plain)
}

/// `shlex::split` splits a text into words as a shell does, or refuses it. What
/// it makes of quotes, escapes and comments is left to the name `shell_words`;
/// plain words with one blank between any two come back as they are.
pub assume_specification[ shlex::split ](in_str: &str) -> (r: Option<Vec<String>>)
    ensures
        words_in(r) == shell_words(in_str@),
        keeps_plain_words(in_str@, words_in(r)),
;

/// The text that `String::from_utf8_lossy` makes of bytes.
pub uninterp spec fn lossy(bytes: Seq<u8>) -> Seq<char>;

/// `String::from_utf8_lossy`: bytes that are UTF-8 are decoded. What stands for
/// bytes that are not is left to the name `lossy`.
#[verifier::external_body]
fn decode_lossy(bytes: &Vec<u8>) -> (r: String)
    ensures
        r@ == lossy(bytes@),
        valid_utf8(bytes@) ==> r@ == decode_utf8(bytes@),
{
    String::from_utf8_lossy(bytes).into_owned()
}

/// The text that bytes stand for.
pub open spec fn decoded(bytes: Seq<u8>) -> Seq<char> {
    if valid_utf8(bytes) {
        decode_utf8(bytes)
    } else {
        lossy(bytes)
    }
}

/// What a command that ended left behind.
#[derive(Debug)]
pub struct CommandOutput {
    /// Whether it ended well.
    pub success: bool,
    /// Its exit code, unless a signal ended it.
    pub code: Option<i32>,
    pub stdout: Vec<u8>,
    pub stderr: Vec<u8>,
}

/// What is known of the outside so far.
#[derive(Debug)]
pub enum KeyReply {
    /// Nothing was asked yet.
    Nothing,
    /// The command ran, or could not be started.
    Command(Result<CommandOutput, String>),
    /// The value of the environment variable, where it has one.
    Variable(Option<String>),
}

/// What comes next.
#[derive(Debug)]
pub enum KeyStep {
    /// Run this program with these arguments.
    Run(String, Vec<String>),
    /// Look up this environment variable.
    ReadVariable(String),
    /// The key, or why there is none.
    Resolved(Result<String, String>),
}

/// What a `KeyStep` says.
pub enum KeyStepView {
    Run(Seq<char>, Seq<Seq<char>>),
    ReadVariable(Seq<char>),
    Resolved(Result<Seq<char>, Seq<char>>),
}

/// What a text result says.
pub open spec fn result_view(r: Result<String, String>) -> Result<Seq<char>, Seq<char>> {
    match r {
        Ok(s) => Ok(s@),
        Err(s) => Err(s@),
    }
}

impl View for KeyStep {
    type V = KeyStepView;

    open spec fn view(&self) -> KeyStepView {
        match self {
            KeyStep::Run(exe, args) => KeyStepView::Run(exe@, text::texts(args@)),
            KeyStep::ReadVariable(name) => KeyStepView::ReadVariable(name@),
            KeyStep::Resolved(r) => KeyStepView::Resolved(result_view(*r)),
        }
    }
}

/// The key that a command which ended gives: what it printed, trimmed; a command
/// that failed is an error, never an empty key.
pub open spec fn key_from_output(
    exe: Seq<char>,
    success: bool,
    code: Option<i32>,
    stdout: Seq<char>,
    stderr: Seq<char>,
) -> Result<Seq<char>, Seq<char>> {
    if success {
        Ok(text::trimmed(stdout))
    } else {
        let number: int = match code {
            Some(n) => n as int,
            None => -1,
        };
        Err(exe + " exited "@ + text::signed_decimal(number) + ": "@ + text::trimmed(stderr))
    }
}

/// The key that a command which ended gives.
pub fn command_key(
    exe: &str,
    success: bool,
    code: Option<i32>,
    stdout: &str,
    stderr: &str,
) -> (r: Result<String, String>)
    ensures
        result_view(r) == key_from_output(exe@, success, code, stdout@, stderr@),
{
    if success {
        Ok(text::trim(stdout).to_string())
    } else {
        let number: i32 = code.unwrap_or(-1);
        let mut out = exe.to_string();
        out.append(" exited ");
        out.append(text::show_signed(number).as_str());
        out.append(": ");
        out.append(text::trim(stderr));
        Err(out)
    }
}

/// What comes next where `key_command` is set and splits into `words`.
pub open spec fn command_step(
    command: Seq<char>,
    words: Option<Seq<Seq<char>>>,
    reply: KeyReply,
) -> KeyStepView {
    match words {
        None => KeyStepView::Resolved(Err("key_command is not valid shell: "@ + command)),
        Some(parts) => if parts.len() == 0 {
            KeyStepView::Resolved(Err("key_command is empty"@))
        } else {
            match reply {
                KeyReply::Command(Ok(output)) => KeyStepView::Resolved(
                    key_from_output(
                        parts[0],
                        output.success,
                        output.code,
                        decoded(output.stdout@),
                        decoded(output.stderr@),
                    ),
                ),
                KeyReply::Command(Err(reason)) => KeyStepView::Resolved(
                    Err(parts[0] + ": "@ + reason@),
                ),
                _ => KeyStepView::Run(parts[0], parts.skip(1)),
            }
        },
    }
}

/// What comes next where there is no `key_command`: after a dollar sign the key
/// is the name of an environment variable, else it is the key itself.
pub open spec fn literal_step(key: Seq<char>, reply: KeyReply) -> KeyStepView {
    let trimmed = text::trimmed(key);
    if trimmed.len() > 0 && trimmed[0] == '$' {
        match reply {
            KeyReply::Variable(value) => KeyStepView::Resolved(
                Ok(
                    match value {
                        Some(s) => s@,
                        None => seq![],
                    },
                ),
            ),
            _ => KeyStepView::ReadVariable(trimmed.skip(1)),
        }
    } else {
        KeyStepView::Resolved(Ok(trimmed))
    }
}

/// What comes next on the way to the key, where `key_command` splits into
/// `words`.
pub open spec fn key_step(
    api: ApiView,
    words: Option<Seq<Seq<char>>>,
    reply: KeyReply,
) -> KeyStepView {
    if api.key_command.len() > 0 {
        command_step(api.key_command, words, reply)
    } else {
        literal_step(api.key, reply)
    }
}

/// What comes next where `key_command` is set and splits into `words`.
fn next_for_command(command: &str, words: Option<Vec<String>>, reply: KeyReply) -> (r: KeyStep)
    ensures
        r@ == command_step(command@, words_in(words), reply),
{
    match words {
        None => {
            KeyStep::Resolved(Err(text::concat("key_command is not valid shell: ", command)))
        },
        Some(parts) => {
            if parts.len() == 0 {
                return KeyStep::Resolved(Err("key_command is empty".to_string()));
            }
            let exe = parts[0].as_str();
            assert(exe@ == text::texts(parts@)[0]);
            match reply {
                KeyReply::Command(Ok(output)) => {
                    let stdout = decode_lossy(&output.stdout);
                    let stderr = decode_lossy(&output.stderr);
                    KeyStep::Resolved(
                        command_key(
                            exe,
                            output.success,
                            output.code,
                            stdout.as_str(),
                            stderr.as_str(),
                        ),
                    )
                },
                KeyReply::Command(Err(reason)) => {
                    let mut out = exe.to_string();
                    out.append(": ");
                    out.append(reason.as_str());
                    KeyStep::Resolved(Err(out))
                },
                _ => {
                    let mut args: Vec<String> = Vec::new();
                    let mut i: usize = 1;
                    while i < parts.len()
                        invariant
                            1 <= i <= parts@.len(),
                            args@.len() == i - 1,
                            forall|k: int| 0 <= k < i - 1 ==> (#[trigger] args@[k])@ == parts@[k
                                + 1]@,
                        decreases parts@.len() - i,
                    {
                        args.push(parts[i].clone());
                        i = i + 1;
                    }
                    assert(text::texts(args@) == text::texts(parts@).skip(1));
                    KeyStep::Run(exe.to_string(), args)
                },
            }
        },
    }
}

/// What comes next on the way to the key, where `key_command` splits into
/// `words`.
pub fn next_key_step(api: &Api, words: Option<Vec<String>>, reply: KeyReply) -> (r: KeyStep)
    ensures
        r@ == key_step(api@, words_in(words), reply),
{
    if !api.key_command.as_str().is_empty() {
        return next_for_command(api.key_command.as_str(), words, reply);
    }
    let key = text::trim(api.key.as_str());
    match text::strip_prefix(key, "$") {
        Some(name) => {
            proof {
                reveal_strlit("$");
                assert(key@[0] == "$"@[0]);
            }
            match reply {
                KeyReply::Variable(Some(value)) => KeyStep::Resolved(Ok(value)),
                KeyReply::Variable(None) => {
                    let none = String::new();
                    KeyStep::Resolved(Ok(none))
                },
                _ => KeyStep::ReadVariable(name.to_string()),
            }
        },
        None => {
            proof {
                reveal_strlit("$");
                if key@.len() > 0 && key@[0] == '$' {
                    assert("$"@ == key@.subrange(0, 1));
                }
            }
            KeyStep::Resolved(Ok(key.to_string()))
        },
    }
}

/// What comes next on the way to the key: the key can be literal, `$ENV_VAR`, or
/// what `key_command` prints.
pub fn resolve_key(api: &Api, reply: KeyReply) -> (r: KeyStep)
    ensures
        r@ == key_step(api@, shell_words(api@.key_command), reply),
        api@.key_command.len() == 0 ==> r@ == literal_step(api@.key, reply),
        forall|plain: Seq<Seq<char>>|
            (forall|i: int| 0 <= i < plain.len() ==> plain_word(#[trigger] plain[i]))
                && api@.key_command == #[trigger] text::joined(plain, seq![' ']) ==> r@ == key_step(
                api@,
                Some(plain),
                reply,
            ),
{
    let words = shlex::split(api.key_command.as_str());
    next_key_step(api, words, reply)
}

/// The outside is asked at most once: the answer to what was asked settles the
/// key.
pub proof fn law_one_question(
    api: ApiView,
    words: Option<Seq<Seq<char>>>,
    output: Result<CommandOutput, String>,
    value: Option<String>,
)
    ensures
        key_step(api, words, KeyReply::Nothing) is Run ==> key_step(
            api,
            words,
            KeyReply::Command(output),
        ) is Resolved,
        key_step(api, words, KeyReply::Nothing) is ReadVariable ==> key_step(
            api,
            words,
            KeyReply::Variable(value),
        ) is Resolved,
{
}

/// A command that failed, or could not be started, is an error and never an
/// empty key.
pub proof fn law_failed_command_is_an_error(
    api: ApiView,
    words: Option<Seq<Seq<char>>>,
    output: Result<CommandOutput, String>,
)
    requires
        api.key_command.len() > 0,
        output matches Ok(o) ==> !o.success,
    ensures
        key_step(api, words, KeyReply::Command(output)) matches KeyStepView::Resolved(Err(_)),
{
}

/// Where there is a key command, what `key` says does not matter.
pub proof fn law_command_comes_first(
    api: ApiView,
    other: ApiView,
    words: Option<Seq<Seq<char>>>,
    reply: KeyReply,
)
    requires
        api.key_command.len() > 0,
        other.key_command == api.key_command,
    ensures
        key_step(api, words, reply) == key_step(other, words, reply),
{
}

/// Whether a text is white space only.
pub open spec fn blank(s: Seq<char>) -> bool {
    forall|i: int| 0 <= i < s.len() ==> text::space(#[trigger] s[i])
}

/// Without a key command a key that does not start with a dollar sign is the key,
/// as it stands but for the white space around it, whatever the outside says.
pub proof fn law_literal_key(
    api: ApiView,
    before: Seq<char>,
    key: Seq<char>,
    after: Seq<char>,
    words: Option<Seq<Seq<char>>>,
    reply: KeyReply,
)
    requires
        api.key_command.len() == 0,
        api.key == before + key + after,
        blank(before),
        blank(after),
        key.len() > 0 ==> key[0] != '$' && !text::space(key[0]) && !text::space(key.last()),
    ensures
        key_step(api, words, reply) == KeyStepView::Resolved(Ok(key)),
{
    text_laws::law_trimmed_between(before, key, after);
}

/// Without a key command a key behind a dollar sign is what the environment
/// variable of that name holds, as it stands; nothing where it is not set.
pub proof fn law_variable_key(
    api: ApiView,
    before: Seq<char>,
    name: Seq<char>,
    after: Seq<char>,
    words: Option<Seq<Seq<char>>>,
    value: String,
    other: KeyReply,
)
    requires
        api.key_command.len() == 0,
        api.key == before + seq!['$'] + name + after,
        blank(before),
        blank(after),
        name.len() > 0 ==> !text::space(name.last()),
    ensures
        !(other is Variable) ==> key_step(api, words, other) == KeyStepView::ReadVariable(name),
        key_step(api, words, KeyReply::Variable(Some(value))) == KeyStepView::Resolved(Ok(value@)),
        key_step(api, words, KeyReply::Variable(None)) == KeyStepView::Resolved(
            Ok(Seq::<char>::empty()),
        ),
{
    text_laws::law_characters('$');
    let whole = seq!['$'] + name;
    assert(whole[0] == '$');
    assert(whole.last() == (if name.len() > 0 { name.last() } else { '$' }));
    assert(before + whole + after == api.key);
    text_laws::law_trimmed_between(before, whole, after);
    assert(whole.skip(1) == name);
}

/// The key command is run as it splits: its first word with the others as
/// arguments. The key is what it printed, without the white space around it. What
/// it says when it fails, and that it cannot be started, is passed on; one that
/// splits into nothing, or not at all, is refused before it is run.
pub proof fn law_command_key(
    api: ApiView,
    parts: Seq<Seq<char>>,
    output: CommandOutput,
    reason: String,
    reply: KeyReply,
)
    requires
        api.key_command.len() > 0,
    ensures
        key_step(api, None, reply) == KeyStepView::Resolved(
            Err("key_command is not valid shell: "@ + api.key_command),
        ),
        parts.len() == 0 ==> key_step(api, Some(parts), reply) == KeyStepView::Resolved(
            Err("key_command is empty"@),
        ),
        parts.len() > 0 && !(reply is Command) ==> {
            &&& key_step(api, Some(parts), reply) matches KeyStepView::Run(exe, args)
            &&& seq![exe] + args == parts
        },
        parts.len() > 0 ==> key_step(api, Some(parts), KeyReply::Command(Err(reason)))
            == KeyStepView::Resolved(Err(parts[0] + ": "@ + reason@)),
        parts.len() > 0 && output.success ==> key_step(
            api,
            Some(parts),
            KeyReply::Command(Ok(output)),
        ) == KeyStepView::Resolved(Ok(text::trimmed(decoded(output.stdout@)))),
        parts.len() > 0 && !output.success ==> key_step(
            api,
            Some(parts),
            KeyReply::Command(Ok(output)),
        ) == KeyStepView::Resolved(
            Err(
                parts[0] + " exited "@ + (match output.code {
                    Some(n) => text::signed_decimal(n as int),
                    None => seq!['-', '1'],
                }) + ": "@ + text::trimmed(decoded(output.stderr@)),
            ),
        ),
        valid_utf8(output.stdout@) ==> decoded(output.stdout@) == decode_utf8(output.stdout@),
        valid_utf8(output.stderr@) ==> decoded(output.stderr@) == decode_utf8(output.stderr@),
        !valid_utf8(output.stdout@) ==> decoded(output.stdout@) == lossy(output.stdout@),
        !valid_utf8(output.stderr@) ==> decoded(output.stderr@) == lossy(output.stderr@),
{
    if parts.len() > 0 {
        assert(seq![parts[0]] + parts.skip(1) == parts);
    }
    assert(text::signed_decimal(-1) == seq!['-', '1']) by {
        assert(text::decimal(1) == seq!['1']);
        assert(seq!['-'] + seq!['1'] == seq!['-', '1']);
    }
}

} // verus!
