//! The files that `git status --short` lists.

use crate::text::{
    chars_between, chars_of, find_char, lines, lines_of, position, push_chars, string_of, trim,
    trim_chars,
};
use vstd::prelude::*;

verus! {

/// One line of `git status --short`: the state of a file, and its path.
#[derive(Debug)]
pub struct GitFile {
    pub mode: String,
    pub path: String,
}

/// A listed file as a mathematical value.
pub struct GitFileView {
    pub mode: Seq<char>,
    pub path: Seq<char>,
}

impl View for GitFile {
    type V = GitFileView;

    open spec fn view(&self) -> GitFileView {
        GitFileView { mode: self.mode@, path: self.path@ }
    }
}

impl Clone for GitFile {
    fn clone(&self) -> (r: Self)
        ensures
            r == *self,
    {
        GitFile { mode: self.mode.clone(), path: self.path.clone() }
    }
}

/// What a line of the list says. Without the white space around it, the line
/// is a state, a space, and a path; a line without space or without state
/// says nothing.
pub open spec fn parse_git_file(line: Seq<char>) -> Option<GitFileView> {
    let text = trim(line);
    let at = position(text, ' ');
    if at < 0 || at >= text.len() {
        None
    } else if trim(text.take(at)).len() == 0 {
        None
    } else {
        Some(GitFileView { mode: trim(text.take(at)), path: text.skip(at + 1) })
    }
}

/// What the lines of the list say, the lines that say nothing left out.
pub open spec fn parse_git_lines(lines: Seq<Seq<char>>) -> Seq<GitFileView>
    decreases lines.len(),
{
    if lines.len() == 0 {
        Seq::<GitFileView>::empty()
    } else {
        match parse_git_file(lines.last()) {
            Some(file) => parse_git_lines(lines.drop_last()).push(file),
            None => parse_git_lines(lines.drop_last()),
        }
    }
}

impl GitFile {
    /// Reads one line of `git status --short`.
    pub fn parse(line: &str) -> (r: Option<GitFile>)
        ensures
            r is Some <==> parse_git_file(line@) is Some,
            r is Some ==> r->0@ == parse_git_file(line@)->0,
    {
        GitFile::parse_chars(&chars_of(line))
    }

    fn parse_chars(line: &Vec<char>) -> (r: Option<GitFile>)
        ensures
            r is Some <==> parse_git_file(line@) is Some,
            r is Some ==> r->0@ == parse_git_file(line@)->0,
    {
        let text = trim_chars(line);
        assert(text@.skip(0) == text@);
        let at = find_char(&text, ' ', 0);
        if at >= text.len() {
            return None;
        }
        let before = chars_between(&text, 0, at);
        assert(before@ == text@.take(at as int));
        let mode = trim_chars(&before);
        if mode.len() == 0 {
            None
        } else {
            let path = chars_between(&text, at + 1, text.len());
            assert(path@ == text@.skip(at + 1));
            Some(GitFile { mode: string_of(&mode), path: string_of(&path) })
        }
    }

    /// The path of the file.
    pub fn to_string(&self) -> (s: String)
        ensures
            s@ == self@.path,
    {
        self.path.clone()
    }
}

/// The files that `git status --short` lists, in the order of the list.
#[derive(Debug)]
pub struct GitFiles(pub Vec<GitFile>);

impl View for GitFiles {
    type V = Seq<GitFileView>;

    open spec fn view(&self) -> Seq<GitFileView> {
        self.0@.map_values(|f: GitFile| f@)
    }
}

impl Clone for GitFiles {
    fn clone(&self) -> (r: Self)
        ensures
            r@ == self@,
    {
        let mut files: Vec<GitFile> = Vec::new();
        let mut i: usize = 0;
        while i < self.0.len()
            invariant
                i <= self.0.len(),
                files@ == self.0@.take(i as int),
            decreases self.0.len() - i,
        {
            files.push(self.0[i].clone());
            assert(self.0@.take(i + 1) == self.0@.take(i as int).push(self.0@[i as int]));
            i += 1;
        }
        assert(self.0@.take(self.0.len() as int) == self.0@);
        GitFiles(files)
    }
}

/// The paths of the files, each followed by a line feed.
pub open spec fn git_files_text(files: Seq<GitFileView>) -> Seq<char>
    decreases files.len(),
{
    if files.len() == 0 {
        Seq::<char>::empty()
    } else {
        git_files_text(files.drop_last()) + files.last().path + seq!['\n']
    }
}

impl GitFiles {
    /// Creates an empty GitFiles object.
    pub fn new() -> (r: Self)
        ensures
            r@ == Seq::<GitFileView>::empty(),
    {
        let files: Vec<GitFile> = Vec::new();
        assert(files@.map_values(|f: GitFile| f@) == Seq::<GitFileView>::empty());
        GitFiles(files)
    }

    /// Reads the output of `git status --short`.
    /// Returns None if no line of it says anything.
    pub fn parse(text: &str) -> (r: Option<Self>)
        ensures
            r is Some <==> parse_git_lines(lines(text@)).len() > 0,
            r is Some ==> r->0@ == parse_git_lines(lines(text@)),
    {
        let all = lines_of(&chars_of(text));
        let ghost texts = all@.map_values(|l: Vec<char>| l@);
        let mut ret: Vec<GitFile> = Vec::new();
        let mut i: usize = 0;
        assert(texts.take(0) == Seq::<Seq<char>>::empty());
        assert(ret@.map_values(|f: GitFile| f@) == Seq::<GitFileView>::empty());
        while i < all.len()
            invariant
                i <= all.len(),
                texts == all@.map_values(|l: Vec<char>| l@),
                ret@.map_values(|f: GitFile| f@) == parse_git_lines(texts.take(i as int)),
            decreases all.len() - i,
        {
            proof {
                assert(texts.take(i + 1).drop_last() == texts.take(i as int));
                assert(texts.take(i + 1).last() == all@[i as int]@);
            }
            if let Some(gfile) = GitFile::parse_chars(&all[i]) {
                let ghost before = ret@.map_values(|f: GitFile| f@);
                ret.push(gfile);
                assert(ret@.map_values(|f: GitFile| f@) == before.push(gfile@));
            }
            i += 1;
        }
        assert(texts.take(all.len() as int) == texts);
        if ret.len() == 0 {
            None
        } else {
            Some(GitFiles(ret))
        }
    }

    /// How many files are listed.
    pub fn len(&self) -> (n: usize)
        ensures
            n == self@.len(),
    {
        self.0.len()
    }

    /// Whether no file is listed.
    pub fn is_empty(&self) -> (b: bool)
        ensures
            b == (self@.len() == 0),
    {
        self.0.len() == 0
    }

    /// The files, in order.
    pub fn as_ref(&self) -> (v: &Vec<GitFile>)
        ensures
            v@.map_values(|f: GitFile| f@) == self@,
    {
        &self.0
    }

    /// The paths of the files, one to a line.
    pub fn to_string(&self) -> (s: String)
        ensures
            s@ == git_files_text(self@),
    {
        let mut out: Vec<char> = Vec::new();
        let mut i: usize = 0;
        assert(self@.take(0) == Seq::<GitFileView>::empty());
        while i < self.0.len()
            invariant
                i <= self.0.len(),
                out@ == git_files_text(self@.take(i as int)),
            decreases self.0.len() - i,
        {
            proof {
                assert(self@.take(i + 1).drop_last() == self@.take(i as int));
                assert(self@.take(i + 1).last() == self.0@[i as int]@);
            }
            push_chars(&mut out, &chars_of(self.0[i].path.as_str()));
            out.push('\n');
            i += 1;
        }
        assert(self@.take(self.0.len() as int) == self@);
        string_of(&out)
    }
}

} // verus!
