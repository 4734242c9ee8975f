//! What a virtual environment for editors is made of.

use vstd::prelude::*;
use crate::chimerax::executor::{PythonInfo, PythonModel};
use crate::error::{EchidnaError, ErrorModel};
use crate::paths::{join, joined, parent, parent_of};
use crate::text::{chars_of, push_str, slice_of, string_of, trimmed_start};
use crate::unicode::unicode_whitespace;

verus! {

/// Builder of a virtual environment.
#[derive(Clone, Debug)]
pub struct VenvBuilder {
    output_dir: String,
    python_info: PythonInfo,
    force: bool,
}

/// The length of the beginning of a text that holds no whitespace.
pub open spec fn word_len(s: Seq<char>) -> int
    decreases s.len(),
{
    if s.len() == 0 || unicode_whitespace(s[0]) {
        0
    } else {
        1 + word_len(s.skip(1))
    }
}

/// The first word of a text: what stands between the whitespace at its
/// start and the next whitespace. `None` if the text is whitespace only.
pub open spec fn first_word(s: Seq<char>) -> Option<Seq<char>> {
    let rest = trimmed_start(s);
    if rest.len() == 0 {
        None
    } else {
        Some(rest.take(word_len(rest)))
    }
}

/// The Python version that is written where the interpreter names none.
pub open spec fn fallback_version() -> Seq<char> {
    "3.11.0"@
}

/// The text of `pyvenv.cfg` for an interpreter.
pub open spec fn pyvenv_cfg_text(executable: Seq<char>, version: Seq<char>, prefix: Seq<char>) -> Seq<
    char,
> {
    "home = "@ + (match parent_of(executable) {
        Some(dir) => dir,
        None => prefix,
    }) + "\ninclude-system-site-packages = true\nversion = "@ + (match first_word(version) {
        Some(word) => word,
        None => fallback_version(),
    }) + "\nexecutable = "@ + executable + "\n"@
}

/// The first word of a text.
pub fn leading_word(s: &str) -> (word: Option<String>)
    ensures
        match word {
            Some(w) => first_word(s@) == Some(w@),
            None => first_word(s@).is_none(),
        },
{
    let chars = chars_of(s);
    let mut from: usize = 0;
    assert(chars@.skip(0) =~= chars@);
    while from < chars.len() && chars[from].is_whitespace()
        invariant
            from <= chars.len(),
            trimmed_start(chars@) == trimmed_start(chars@.skip(from as int)),
        decreases chars.len() - from,
    {
        assert(chars@.skip(from as int).skip(1) =~= chars@.skip(from + 1));
        from += 1;
    }
    if from == chars.len() {
        return None;
    }
    let ghost rest = chars@.skip(from as int);
    assert(trimmed_start(chars@) == rest);
    let mut to: usize = from;
    assert(rest.skip(0) =~= rest);
    while to < chars.len() && !chars[to].is_whitespace()
        invariant
            from <= to <= chars.len(),
            rest == chars@.skip(from as int),
            word_len(rest) == (to - from) + word_len(rest.skip(to - from)),
        decreases chars.len() - to,
    {
        assert(rest.skip(to - from)[0] == chars@[to as int]);
        assert(rest.skip(to - from).skip(1) =~= rest.skip(to - from + 1));
        to += 1;
    }
    assert(word_len(rest.skip(to - from)) == 0) by {
        if to < chars.len() {
            assert(rest.skip(to - from)[0] == chars@[to as int]);
        }
    }
    let word = slice_of(&chars, from, to);
    assert(word@ =~= rest.take(word_len(rest)));
    Some(string_of(&word))
}

/// A link of a virtual environment: where it lies and what it points at.
#[derive(Clone, Debug, PartialEq, Eq)]
pub struct Link {
    pub path: String,
    pub target: String,
}

impl VenvBuilder {
    /// The directory of the environment.
    pub closed spec fn dir(&self) -> Seq<char> {
        self.output_dir@
    }

    /// The interpreter that the environment points at.
    pub closed spec fn python(&self) -> PythonModel {
        self.python_info@
    }

    /// Whether an existing environment is replaced.
    pub closed spec fn forced(&self) -> bool {
        self.force
    }

    /// Creates a builder that does not replace an existing environment.
    pub fn new(output_dir: String, python_info: PythonInfo) -> (builder: VenvBuilder)
        ensures
            builder.dir() == output_dir@,
            builder.python() == python_info@,
            !builder.forced(),
    {
        VenvBuilder { output_dir, python_info, force: false }
    }

    /// Sets whether an existing environment is replaced.
    pub fn force(self, force: bool) -> (builder: VenvBuilder)
        ensures
            builder.dir() == self.dir(),
            builder.python() == self.python(),
            builder.forced() == force,
    {
        let mut builder = self;
        builder.force = force;
        builder
    }

    /// The directory of the environment.
    pub fn output_dir(&self) -> (path: &str)
        ensures
            path@ == self.dir(),
    {
        self.output_dir.as_str()
    }

    /// Whether an existing environment is replaced.
    pub fn is_forced(&self) -> (force: bool)
        ensures
            force == self.forced(),
    {
        self.force
    }

    /// Decides what to do about the directory of the environment: `true` if
    /// it must be removed first, an error if it exists and may not be
    /// replaced.
    pub fn check_target(&self, exists: bool) -> (r: Result<bool, EchidnaError>)
        ensures
            match r {
                Ok(remove) => remove == exists && (exists ==> self.forced()),
                Err(e) => exists && !self.forced() && e@ == ErrorModel::VenvExists(self.dir()),
            },
    {
        if exists {
            if self.force {
                Ok(true)
            } else {
                Err(EchidnaError::VenvExists(self.output_dir.clone()))
            }
        } else {
            Ok(false)
        }
    }

    /// The text of `pyvenv.cfg`: the directory of the interpreter (its
    /// prefix where the path of the interpreter has no parent), its version
    /// and its path.
    pub fn pyvenv_cfg(&self) -> (text: String)
        ensures
            text@ == pyvenv_cfg_text(
                self.python().executable,
                self.python().version,
                self.python().prefix,
            ),
    {
        let mut out: Vec<char> = Vec::new();
        push_str(&mut out, "home = ");
        match parent(self.python_info.executable.as_str()) {
            Some(dir) => {
                push_str(&mut out, dir.as_str());
            },
            None => {
                push_str(&mut out, self.python_info.prefix.as_str());
            },
        }
        push_str(&mut out, "\ninclude-system-site-packages = true\nversion = ");
        match leading_word(self.python_info.version.as_str()) {
            Some(word) => {
                push_str(&mut out, word.as_str());
            },
            None => {
                push_str(&mut out, "3.11.0");
            },
        }
        push_str(&mut out, "\nexecutable = ");
        push_str(&mut out, self.python_info.executable.as_str());
        push_str(&mut out, "\n");
        assert(out@ =~= pyvenv_cfg_text(
            self.python().executable,
            self.python().version,
            self.python().prefix,
        ));
        string_of(&out)
    }

    /// The path of `pyvenv.cfg`.
    pub fn pyvenv_cfg_path(&self) -> (path: String)
        ensures
            path@ == joined(self.dir(), "pyvenv.cfg"@),
    {
        join(self.output_dir.as_str(), "pyvenv.cfg")
    }

    /// The links of the environment on Unix: `bin/python` points at the
    /// interpreter, and `bin/python3` at `bin/python`.
    pub fn unix_links(&self) -> (links: Vec<Link>)
        ensures
            links@.len() == 2,
            links@[0].path@ == joined(joined(self.dir(), "bin"@), "python"@),
            links@[0].target@ == self.python().executable,
            links@[1].path@ == joined(joined(self.dir(), "bin"@), "python3"@),
            links@[1].target@ == links@[0].path@,
    {
        let bin = join(self.output_dir.as_str(), "bin");
        let python = join(bin.as_str(), "python");
        let python3 = join(bin.as_str(), "python3");
        let mut links: Vec<Link> = Vec::new();
        links.push(Link { path: python.clone(), target: self.python_info.executable.clone() });
        links.push(Link { path: python3, target: python });
        links
    }

    /// The link of the environment on Windows: `Scripts/python.exe` points
    /// at the interpreter.
    pub fn windows_link(&self) -> (link: Link)
        ensures
            link.path@ == joined(joined(self.dir(), "Scripts"@), "python.exe"@),
            link.target@ == self.python().executable,
    {
        let scripts = join(self.output_dir.as_str(), "Scripts");
        Link {
            path: join(scripts.as_str(), "python.exe"),
            target: self.python_info.executable.clone(),
        }
    }
}

} // verus!
