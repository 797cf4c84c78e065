use vstd::prelude::*;

verus! {

/// What one run counts and shows.
#[derive(Debug)]
pub struct Config {
    /// Input names in the order given; `-` names standard input.
    pub files: Vec<String>,
    pub lines: bool,
    pub words: bool,
    pub bytes: bool,
    pub chars: bool,
}

impl Config {
    /// A configuration as resolution leaves it: some input, some field shown, and
    /// never bytes together with characters.
    pub open spec fn wf(&self) -> bool {
        &&& self.files@.len() > 0
        &&& !(self.bytes && self.chars)
        &&& self.lines || self.words || self.bytes || self.chars
    }
}

/// Why the flags given cannot make a configuration.
#[derive(Debug, Clone, Copy, PartialEq, Eq, Structural)]
pub enum ConfigError {
    /// Byte and character counts were both asked for.
    BytesWithChars,
}

impl ConfigError {
    /// The message reported for this error.
    pub fn message(&self) -> (r: String)
        ensures
            r@ == bytes_with_chars_text(),
    {
        String::from_str("The argument '--bytes' cannot be used with '--chars'")
    }
}

pub open spec fn bytes_with_chars_text() -> Seq<char> {
    "The argument '--bytes' cannot be used with '--chars'"@
}

/// Whether any of the four display flags is set.
pub open spec fn any_flag(lines: bool, words: bool, bytes: bool, chars: bool) -> bool {
    lines || words || bytes || chars
}

/// Builds the configuration of a run from the input names and the four display flags
/// as given. Bytes and characters together are refused. With no input name, standard
/// input (`-`) is read; with no flag, lines, words and bytes are shown.
pub fn resolve_config(files: Vec<String>, lines: bool, words: bool, bytes: bool, chars: bool) -> (r:
    Result<Config, ConfigError>)
    ensures
        r is Err <==> bytes && chars,
        r is Err ==> r == Err::<Config, ConfigError>(ConfigError::BytesWithChars),
        r matches Ok(c) ==> {
            &&& c.wf()
            &&& files@.len() > 0 ==> c.files@ == files@
            &&& files@.len() == 0 ==> c.files@.len() == 1 && c.files@[0]@ == "-"@
            &&& any_flag(lines, words, bytes, chars) ==> c.lines == lines && c.words == words
                && c.bytes == bytes && c.chars == chars
            &&& !any_flag(lines, words, bytes, chars) ==> c.lines && c.words && c.bytes
                && !c.chars
        },
{
    if bytes && chars {
        return Err(ConfigError::BytesWithChars);
    }
    let mut files = files;
    if files.len() == 0 {
        files.push(String::from_str("-"));
    }
    if !(lines || words || bytes || chars) {
        Ok(Config { files, lines: true, words: true, bytes: true, chars: false })
    } else {
        Ok(Config { files, lines, words, bytes, chars })
    }
}

} // verus!
