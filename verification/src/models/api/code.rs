//! The code execution service: what is sent to it and what it answers.

use vstd::prelude::*;

verus! {

/// A language that the execution service can run.
#[derive(Debug, Clone, PartialEq, Eq)]
pub struct Language {
    pub language: String,
    pub version: String,
    pub aliases: Vec<String>,
    pub runtime: Option<String>,
}

/// An installed runtime, as the execution service lists it.
#[derive(Debug, Clone, PartialEq, Eq)]
pub struct Runtime {
    pub language: String,
    pub version: String,
    pub aliases: Vec<String>,
    pub runtime: Option<String>,
}

/// One source file of a program to run.
#[derive(Debug, Clone, PartialEq, Eq)]
pub struct ExecuteFile {
    pub name: Option<String>,
    pub content: String,
    pub encoding: Option<String>,
}

impl ExecuteFile {
    /// A file with no name, no content and no encoding.
    pub fn new() -> (file: ExecuteFile)
        ensures
            file.name is None,
            file.content@ == Seq::<char>::empty(),
            file.encoding is None,
    {
        ExecuteFile { name: None, content: String::new(), encoding: None }
    }

    /// The same file under the given name.
    pub fn name(self, name: &str) -> (file: ExecuteFile)
        ensures
            file.name is Some,
            file.name->0@ == name@,
            file == (ExecuteFile { name: file.name, ..self }),
    {
        ExecuteFile { name: Some(name.to_owned()), content: self.content, encoding: self.encoding }
    }

    /// The same file with the given content.
    pub fn content(self, content: &str) -> (file: ExecuteFile)
        ensures
            file.content@ == content@,
            file == (ExecuteFile { content: file.content, ..self }),
    {
        ExecuteFile { name: self.name, content: content.to_owned(), encoding: self.encoding }
    }

    /// The same file with the given encoding.
    pub fn encoding(self, encoding: &str) -> (file: ExecuteFile)
        ensures
            file.encoding is Some,
            file.encoding->0@ == encoding@,
            file == (ExecuteFile { encoding: file.encoding, ..self }),
    {
        ExecuteFile { name: self.name, content: self.content, encoding: Some(encoding.to_owned()) }
    }
}

/// A program to run: its language, its files and the limits to run it under.
#[derive(Debug, Clone, PartialEq, Eq)]
pub struct ExecuteRequest {
    pub language: String,
    pub version: String,
    pub files: Vec<ExecuteFile>,
    pub stdin: Option<String>,
    pub args: Option<Vec<String>>,
    pub run_timeout: Option<usize>,
    pub compile_timeout: Option<usize>,
    pub compile_memory_limit: Option<isize>,
    pub run_memory_limit: Option<isize>,
}

impl ExecuteRequest {
    /// A request with empty texts, no files and nothing else set.
    pub fn new() -> (request: ExecuteRequest)
        ensures
            request.language@ == Seq::<char>::empty(),
            request.version@ == Seq::<char>::empty(),
            request.files@ == Seq::<ExecuteFile>::empty(),
            request.stdin is None,
            request.args is None,
            request.run_timeout is None,
            request.compile_timeout is None,
            request.compile_memory_limit is None,
            request.run_memory_limit is None,
    {
        ExecuteRequest {
            language: String::new(),
            version: String::new(),
            files: Vec::new(),
            stdin: None,
            args: None,
            run_timeout: None,
            compile_timeout: None,
            compile_memory_limit: None,
            run_memory_limit: None,
        }
    }

    /// The same request for the given language.
    pub fn language(self, language: &str) -> (request: ExecuteRequest)
        ensures
            request.language@ == language@,
            request == (ExecuteRequest { language: request.language, ..self }),
    {
        let mut request = self;
        request.language = language.to_owned();
        request
    }

    /// The same request for the given version of the language.
    pub fn version(self, version: &str) -> (request: ExecuteRequest)
        ensures
            request.version@ == version@,
            request == (ExecuteRequest { version: request.version, ..self }),
    {
        let mut request = self;
        request.version = version.to_owned();
        request
    }

    /// The same request with `file` after its other files.
    pub fn add_file(self, file: ExecuteFile) -> (request: ExecuteRequest)
        ensures
            request.files@ == self.files@.push(file),
            request == (ExecuteRequest { files: request.files, ..self }),
    {
        let mut request = self;
        request.files.push(file);
        request
    }

    /// The same request with `files` in place of its files.
    pub fn files(self, files: Vec<ExecuteFile>) -> (request: ExecuteRequest)
        ensures
            request == (ExecuteRequest { files, ..self }),
    {
        let mut request = self;
        request.files = files;
        request
    }

    /// The same request with the given standard input.
    pub fn stdin(self, stdin: &str) -> (request: ExecuteRequest)
        ensures
            request.stdin is Some,
            request.stdin->0@ == stdin@,
            request == (ExecuteRequest { stdin: request.stdin, ..self }),
    {
        let mut request = self;
        request.stdin = Some(stdin.to_owned());
        request
    }

    /// The same request with the given command-line arguments.
    pub fn args(self, args: Vec<String>) -> (request: ExecuteRequest)
        ensures
            request == (ExecuteRequest { args: Some(args), ..self }),
    {
        let mut request = self;
        request.args = Some(args);
        request
    }

    /// The same request with the given limit on the run's time.
    pub fn run_timeout(self, timeout: usize) -> (request: ExecuteRequest)
        ensures
            request == (ExecuteRequest { run_timeout: Some(timeout), ..self }),
    {
        let mut request = self;
        request.run_timeout = Some(timeout);
        request
    }

    /// The same request with the given limit on the compilation's time.
    pub fn compile_timeout(self, timeout: usize) -> (request: ExecuteRequest)
        ensures
            request == (ExecuteRequest { compile_timeout: Some(timeout), ..self }),
    {
        let mut request = self;
        request.compile_timeout = Some(timeout);
        request
    }

    /// The same request with the given limit on the compilation's memory.
    pub fn compile_memory_limit(self, limit: isize) -> (request: ExecuteRequest)
        ensures
            request == (ExecuteRequest { compile_memory_limit: Some(limit), ..self }),
    {
        let mut request = self;
        request.compile_memory_limit = Some(limit);
        request
    }

    /// The same request with the given limit on the run's memory.
    pub fn run_memory_limit(self, limit: isize) -> (request: ExecuteRequest)
        ensures
            request == (ExecuteRequest { run_memory_limit: Some(limit), ..self }),
    {
        let mut request = self;
        request.run_memory_limit = Some(limit);
        request
    }
}

/// What one stage of an execution, compiling or running, produced.
#[derive(Debug, Clone, PartialEq, Eq)]
pub struct ExecuteStage {
    pub stdout: String,
    pub stderr: String,
    pub output: String,
    pub code: Option<isize>,
    pub signal: Option<String>,
}

/// The execution service's answer.
#[derive(Debug, Clone, PartialEq, Eq)]
pub struct ExecuteResponse {
    pub language: String,
    pub version: String,
    pub run: ExecuteStage,
    pub compile: Option<ExecuteStage>,
}

} // verus!
