//! What the shell reads from its user: a line becomes a list of arguments,
//! metadata is given as `key:value` pairs, and search terms become a query.

use vstd::prelude::*;
use vstd::string::StringExecFns;
use crate::text::{spec_split, spec_trim, split, trim};

verus! {

/// A key-value pair used to parse course and lesson metadata from the
/// command-line. Pairs are written in the format `<key>:<value>`.
#[derive(Debug, PartialEq, Eq)]
pub struct KeyValue {
    pub key: String,
    pub value: String,
}

/// What a [`KeyValue`] holds, as text.
pub struct KeyValueView {
    pub key: Seq<char>,
    pub value: Seq<char>,
}

impl View for KeyValue {
    type V = KeyValueView;

    open spec fn view(&self) -> KeyValueView {
        KeyValueView { key: self.key@, value: self.value@ }
    }
}

impl Clone for KeyValue {
    fn clone(&self) -> (copy: Self)
        ensures
            copy == *self,
    {
        KeyValue { key: self.key.clone(), value: self.value.clone() }
    }
}

/// The text is not a key and a value with one colon between them.
#[derive(Clone, Copy, Debug, PartialEq, Eq)]
pub struct InvalidKeyValue;

/// The pair that a text stands for: the text, without the white space around
/// it, must be a key, one colon and a value, neither of them empty.
pub open spec fn spec_parse_key_value(text: Seq<char>) -> Option<KeyValueView> {
    let parts = spec_split(spec_trim(text), ':');
    if parts.len() == 2 && parts[0].len() > 0 && parts[1].len() > 0 {
        Some(KeyValueView { key: parts[0], value: parts[1] })
    } else {
        None
    }
}

impl KeyValue {
    /// Parse a string value into a key-value pair.
    pub fn parse(s: &str) -> (pair: Result<KeyValue, InvalidKeyValue>)
        ensures
            match pair {
                Ok(pair) => spec_parse_key_value(s@) == Some(pair@),
                Err(_) => spec_parse_key_value(s@) is None,
            },
    {
        let mut key_value = split(trim(s), ':');
        if key_value.len() != 2 {
            return Err(InvalidKeyValue);
        }
        let value = key_value.pop().unwrap();
        let key = key_value.pop().unwrap();
        if key.as_str().unicode_len() == 0 || value.as_str().unicode_len() == 0 {
            return Err(InvalidKeyValue);
        }
        Ok(KeyValue { key, value })
    }

    /// The message shown for a pair that cannot be parsed.
    pub fn error_message() -> (message: String)
        ensures
            message@ == "Invalid key-value pair"@,
    {
        "Invalid key-value pair".to_owned()
    }
}

impl std::str::FromStr for KeyValue {
    type Err = InvalidKeyValue;

    /// Parse a string value into a key-value pair: the pair that the text
    /// stands for, and an error where it stands for none.
    fn from_str(s: &str) -> (pair: Result<Self, Self::Err>)
        ensures
            match pair {
                Ok(pair) => spec_parse_key_value(s@) == Some(pair@),
                Err(_) => spec_parse_key_value(s@) is None,
            },
    {
        KeyValue::parse(s)
    }
}

/// The name that every command line begins with.
pub open spec fn spec_program_name() -> Seq<char> {
    "trane"@
}

/// The arguments that a line of input stands for. A line that is empty but
/// for white space, or whose first character after white space is `#`, stands
/// for nothing. Any other line is cut at every blank, and the program's name
/// is put in front unless the line begins with it.
pub open spec fn spec_command_arguments(line: Seq<char>) -> Option<Seq<Seq<char>>> {
    let line = spec_trim(line);
    if line.len() == 0 || line[0] == '#' {
        None
    } else {
        let words = spec_split(line, ' ');
        if words[0] == spec_program_name() {
            Some(words)
        } else {
            Some(seq![spec_program_name()] + words)
        }
    }
}

/// Turns a line of input into the arguments to parse: nothing for a comment
/// or an empty line.
pub fn command_arguments(line: &str) -> (arguments: Option<Vec<String>>)
    ensures
        arguments.deep_view() == spec_command_arguments(line@),
{
    // Trim any blank space from the line.
    let line = trim(line);

    // Ignore comments and empty lines.
    if line.unicode_len() == 0 || line.get_char(0) == '#' {
        return None;
    }
    // Split the line into a vector of arguments. Add an initial argument with
    // the program's name if the line doesn't have it, so the parser can
    // recognize the input.

    let mut words = split(line, ' ');
    let name = "trane".to_owned();
    if words[0] == name {
        Some(words)
    } else {
        let mut arguments: Vec<String> = Vec::new();
        arguments.push(name);
        arguments.append(&mut words);
        Some(arguments)
    }
}

/// The prompt as it is shown: in bold red where it is the shell's own
/// prompt, as it is otherwise.
pub open spec fn spec_highlight_prompt(prompt: Seq<char>, default: bool) -> Seq<char> {
    if default {
        "\x1b[1;31m"@ + prompt + "\x1b[0m"@
    } else {
        prompt
    }
}

/// Custom logic to highlight the shell's prompt.
pub fn highlight_prompt(prompt: &str, default: bool) -> (shown: String)
    ensures
        shown@ == spec_highlight_prompt(prompt@, default),
{
    if default {
        "\x1b[1;31m".to_owned().concat(prompt).concat("\x1b[0m")
    } else {
        prompt.to_owned()
    }
}

/// Custom logic to highlight auto-completion hints: a hint is shown in bold.
pub fn highlight_hint(hint: &str) -> (shown: String)
    ensures
        shown@ == "\x1b[1m"@ + hint@ + "\x1b[m"@,
{
    "\x1b[1m".to_owned().concat(hint).concat("\x1b[m")
}

/// The version under which a dependency was built: that of the first entry
/// with the dependency's name.
pub open spec fn spec_dependency_version(
    dependencies: Seq<(String, String)>,
    name: Seq<char>,
) -> Option<String>
    decreases dependencies.len(),
{
    if dependencies.len() == 0 {
        None
    } else if dependencies[0].0@ == name {
        Some(dependencies[0].1)
    } else {
        spec_dependency_version(dependencies.drop_first(), name)
    }
}

/// Returns the version of a dependency from the list of names and versions
/// that the program was built with.
pub fn dependency_version(dependencies: &[(String, String)], name: &str) -> (version: Option<
    String,
>)
    ensures
        version == spec_dependency_version(dependencies@, name@),
{
    let wanted = name.to_owned();
    let mut i: usize = 0;
    assert(dependencies@.skip(0) =~= dependencies@);
    while i < dependencies.len()
        invariant
            0 <= i <= dependencies@.len(),
            wanted@ == name@,
            spec_dependency_version(dependencies@, name@) == spec_dependency_version(
                dependencies@.skip(i as int),
                name@,
            ),
        decreases dependencies@.len() - i,
    {
        assert(dependencies@.skip(i as int).drop_first() =~= dependencies@.skip(i + 1));
        if dependencies[i].0 == wanted {
            return Some(dependencies[i].1.clone());
        }
        i += 1;
    }
    None
}

/// A search term between double quotes.
pub open spec fn spec_quoted(term: Seq<char>) -> Seq<char> {
    seq!['"'] + term + seq!['"']
}

/// The query for a list of search terms: each term between double quotes,
/// with one blank between a term and the next.
pub open spec fn spec_search_query(terms: Seq<String>) -> Seq<char>
    decreases terms.len(),
{
    if terms.len() == 0 {
        Seq::empty()
    } else if terms.len() == 1 {
        spec_quoted(terms[0]@)
    } else {
        spec_search_query(terms.drop_last()) + seq![' '] + spec_quoted(terms.last()@)
    }
}

/// Builds the query that searches for units which match all the given
/// terms: nothing where no term is given.
pub fn search_query(terms: &[String]) -> (query: Option<String>)
    ensures
        terms@.len() == 0 <==> query is None,
        query is Some ==> query->0@ == spec_search_query(terms@),
{
    if terms.len() == 0 {
        return None;
    }
    proof {
        reveal_strlit("\"");
        reveal_strlit(" ");
    }
    let mut query = String::new();
    let mut i: usize = 0;
    while i < terms.len()
        invariant
            0 <= i <= terms@.len(),
            "\""@ == seq!['"'],
            " "@ == seq![' '],
            query@ == spec_search_query(terms@.take(i as int)),
        decreases terms@.len() - i,
    {
        assert(terms@.take(i + 1).drop_last() =~= terms@.take(i as int));
        if i > 0 {
            query.append(" ");
        }
        query.append("\"");
        query.append(terms[i].as_str());
        query.append("\"");
        assert(spec_search_query(terms@.take(i + 1)) =~= query@);
        i += 1;
    }
    assert(terms@.take(terms@.len() as int) =~= terms@);
    Some(query)
}

} // verus!
