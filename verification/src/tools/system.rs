//! Directory tools.
use vstd::prelude::*;

use crate::error::{answer, refusal, Answer, ErrorView, GremlinError};
use crate::text::{join, joined, texts};

verus! {

/// An entry of a directory: its name, and whether it is a directory itself where
/// that could be found out.
#[derive(Debug)]
pub struct DirEntry {
    pub name: String,
    pub is_dir: Option<bool>,
}

/// The line for an entry: its name, with a slash behind it for a directory.
pub open spec fn entry_line(entry: DirEntry) -> Seq<char> {
    if entry.is_dir == Some(true) {
        entry.name@ + "/"@
    } else {
        entry.name@
    }
}

/// The lines for the first `n` entries. An entry that could not be read has none.
pub open spec fn entry_lines(entries: Seq<Option<DirEntry>>, n: nat) -> Seq<Seq<char>>
    decreases n,
{
    if n == 0 {
        Seq::empty()
    } else {
        let before = entry_lines(entries, (n - 1) as nat);
        match entries[n - 1] {
            Some(entry) => before.push(entry_line(entry)),
            None => before,
        }
    }
}

/// What the directory tool says of what reading a directory gave.
pub open spec fn list_answer(read: Result<Vec<Option<DirEntry>>, String>) -> Answer {
    match read {
        Ok(entries) => {
            let all = entry_lines(entries@, entries@.len());
            Ok(
                if all.len() == 0 {
                    "(empty directory)"@
                } else {
                    joined(all, "\n"@)
                },
            )
        },
        Err(e) => Err(ErrorView::Io(e@)),
    }
}

/// What the working directory tool says.
pub open spec fn pwd_answer(cwd: Result<String, String>) -> Answer {
    match cwd {
        Ok(path) => Ok(path@),
        Err(e) => refusal("pwd failed: "@ + e@),
    }
}

/// The working directory, given what asking the system for it gave.
pub fn pwd(cwd: &Result<String, String>) -> (r: Result<String, GremlinError>)
    ensures
        answer(r) == pwd_answer(*cwd),
{
    match cwd {
        Ok(path) => Ok(path.clone()),
        Err(e) => Err(GremlinError::tool("pwd failed: ", e.as_str())),
    }
}

/// The entries of a directory, one on a line, given what reading it gave.
pub fn list_dir(read: &Result<Vec<Option<DirEntry>>, String>) -> (r: Result<String, GremlinError>)
    ensures
        answer(r) == list_answer(*read),
{
    match read {
        Ok(entries) => {
            let mut all: Vec<String> = Vec::new();
            let mut i: usize = 0;
            assert(texts(all@) =~= entry_lines(entries@, 0));
            while i < entries.len()
                invariant
                    i <= entries@.len(),
                    texts(all@) == entry_lines(entries@, i as nat),
                decreases entries@.len() - i,
            {
                let ghost before = all@;
                match &entries[i] {
                    Some(entry) => {
                        let mut line = entry.name.clone();
                        if let Some(true) = entry.is_dir {
                            line.append("/");
                        }
                        all.push(line);
                        assert(texts(all@) =~= texts(before).push(entry_line(*entry)));
                    },
                    None => {},
                }
                i = i + 1;
            }
            assert(texts(all@).len() == all@.len());
            if all.len() == 0 {
                Ok("(empty directory)".to_owned())
            } else {
                Ok(join(&all, "\n"))
            }
        },
        Err(e) => Err(GremlinError::Io(e.clone())),
    }
}

} // verus!
