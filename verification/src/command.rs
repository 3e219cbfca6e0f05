use std::str::FromStr;
use vstd::prelude::*;
use vstd::string::StrSliceExecFns;

verus! {

/// One line of the control protocol.
pub enum Command {
    /// `get <key>`
    Get(String),
    /// `put <key> <value>`
    Put(String, String),
    /// Anything else, with the line as it came.
    Invalid(String),
}

/// The mathematical content of a `Command`.
pub enum CommandModel {
    Get(Seq<char>),
    Put(Seq<char>, Seq<char>),
    Invalid(Seq<char>),
}

impl View for Command {
    type V = CommandModel;

    open spec fn view(&self) -> CommandModel {
        match *self {
            Command::Get(key) => CommandModel::Get(key@),
            Command::Put(key, value) => CommandModel::Put(key@, value@),
            Command::Invalid(line) => CommandModel::Invalid(line@),
        }
    }
}

/// `s` without the white space at its two ends, as `str::trim` of the
/// standard library takes it off.
pub uninterp spec fn trimmed(s: Seq<char>) -> Seq<char>;

/// `str::trim` of the standard library: the result is the input without its
/// leading and trailing white space, which the contract names `trimmed`.
#[verifier::external_body]
fn trim(input: &str) -> (r: &str)
    ensures
        r@ == trimmed(input@),
{
    input.trim()
}

/// `i` is the place of the first space in `s`.
pub open spec fn is_first_space(s: Seq<char>, i: int) -> bool {
    &&& 0 <= i < s.len()
    &&& s[i] == ' '
    &&& forall|j: int| 0 <= j < i ==> s[j] != ' '
}

/// `s` cut at its first space: what stands before it and what follows it.
/// `None` where `s` holds no space.
pub open spec fn split_at_space(s: Seq<char>) -> Option<(Seq<char>, Seq<char>)> {
    if exists|i: int| is_first_space(s, i) {
        let i = choose|i: int| is_first_space(s, i);
        Some((s.subrange(0, i), s.subrange(i + 1, s.len() as int)))
    } else {
        None
    }
}

/// The command that `line` holds: `get` and a key, with one space between
/// them and none in the key; `put`, a key and a value, with one space after
/// each of the first two, the value running to the end of the line. Any
/// other line is `Invalid` and carries `input`.
pub open spec fn parse_line(line: Seq<char>, input: Seq<char>) -> CommandModel {
    match split_at_space(line) {
        None => CommandModel::Invalid(input),
        Some((head, rest)) => match split_at_space(rest) {
            None => if head == "get"@ {
                CommandModel::Get(rest)
            } else {
                CommandModel::Invalid(input)
            },
            Some((key, value)) => if head == "put"@ {
                CommandModel::Put(key, value)
            } else {
                CommandModel::Invalid(input)
            },
        },
    }
}

/// The view of what `cut_at_space` returns.
pub open spec fn halves_view(r: Option<(&str, &str)>) -> Option<(Seq<char>, Seq<char>)> {
    match r {
        Some((head, rest)) => Some((head@, rest@)),
        None => None,
    }
}

/// Cuts `s` at its first space.
pub fn cut_at_space(s: &str) -> (r: Option<(&str, &str)>)
    ensures
        halves_view(r) == split_at_space(s@),
{
    let n = s.unicode_len();
    let mut i: usize = 0;
    while i < n
        invariant
            i <= n,
            n == s@.len(),
            forall|j: int| 0 <= j < i ==> s@[j] != ' ',
        decreases n - i,
    {
        if s.get_char(i) == ' ' {
            proof {
                assert(is_first_space(s@, i as int));
                let k = choose|k: int| is_first_space(s@, k);
                assert(k == i);
            }
            return Some((s.substring_char(0, i), s.substring_char(i + 1, n)));
        }
        i += 1;
    }
    assert forall|k: int| !is_first_space(s@, k) by {}
    None
}

/// Reads the command of a line whose surrounding white space is off
/// already. `input` is the line as it came, which an invalid command
/// carries.
pub fn parse_trimmed(line: &str, input: &str) -> (r: Command)
    ensures
        r@ == parse_line(line@, input@),
{
    match cut_at_space(line) {
        None => Command::Invalid(input.to_owned()),
        Some((head, rest)) => match cut_at_space(rest) {
            None => if head.to_owned() == "get".to_owned() {
                Command::Get(rest.to_owned())
            } else {
                Command::Invalid(input.to_owned())
            },
            Some((key, value)) => if head.to_owned() == "put".to_owned() {
                Command::Put(key.to_owned(), value.to_owned())
            } else {
                Command::Invalid(input.to_owned())
            },
        },
    }
}

/// Reads the command of one line of input, white space at its ends aside.
pub fn parse_command(input: &str) -> (r: Command)
    ensures
        r@ == parse_line(trimmed(input@), input@),
{
    parse_trimmed(trim(input), input)
}

impl FromStr for Command {
    type Err = ();

    fn from_str(input: &str) -> (r: Result<Command, ()>)
        ensures
            r is Ok,
            r->Ok_0@ == parse_line(trimmed(input@), input@),
    {
        Ok(parse_command(input))
    }
}

} // verus!
