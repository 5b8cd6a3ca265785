//! The commands that a release asks of cargo. Nothing here runs a command.

use crate::process::{bytes_text, Command, CommandView, Output, OutputExt, Stdio};
use vstd::prelude::*;

verus! {

#[derive(Debug)]
pub struct Cargo {
    manifest_path: Option<String>,
}

/// The base command of cargo: `cargo [--manifest-path <path>]`, its standard
/// output read by this program where it is suppressed and handed on where it
/// is not.
pub open spec fn cargo_base(manifest_path: Option<Seq<char>>, suppress_stdout: bool) -> CommandView {
    CommandView {
        program: "cargo"@,
        args: match manifest_path {
            Some(path) => seq!["--manifest-path"@, path],
            None => Seq::<Seq<char>>::empty(),
        },
        stdout: if suppress_stdout {
            Stdio::Piped
        } else {
            Stdio::Inherit
        },
    }
}

/// The arguments of `publish`. The dirty state of the repository is always
/// allowed.
pub open spec fn publish_args(dry_run: bool, skip_verify: bool) -> Seq<Seq<char>> {
    seq!["publish"@] + (if dry_run {
        seq!["--dry-run"@]
    } else {
        Seq::<Seq<char>>::empty()
    }) + (if skip_verify {
        seq!["--no-verify"@]
    } else {
        Seq::<Seq<char>>::empty()
    }) + seq!["--allow-dirty"@]
}

impl Default for Cargo {
    fn default() -> (c: Cargo)
        ensures
            c.spec_manifest_path() is None,
    {
        Cargo { manifest_path: None }
    }
}

impl Cargo {
    /// The path of the manifest that the commands are given, if any.
    pub closed spec fn spec_manifest_path(&self) -> Option<Seq<char>> {
        match self.manifest_path {
            Some(p) => Some(p@),
            None => None,
        }
    }

    pub fn new(manifest_path: Option<String>) -> (c: Self)
        ensures
            c.spec_manifest_path() == match manifest_path {
                Some(p) => Some(p@),
                None => None,
            },
    {
        Self { manifest_path }
    }

    pub fn command(&self, supress_stdout: bool) -> (c: Command)
        ensures
            c@ == cargo_base(self.spec_manifest_path(), supress_stdout),
    {
        let mut cargo = Command::new("cargo");
        if !supress_stdout {
            cargo.stdout(Stdio::Inherit);
        } else {
            cargo.stdout(Stdio::Piped);
        }
        match &self.manifest_path {
            Some(manifest_path) => {
                cargo.arg("--manifest-path");
                cargo.arg(manifest_path.as_str());
                assert(cargo@.args == seq!["--manifest-path"@, manifest_path@]);
            },
            None => {},
        }
        cargo
    }

    /// The command that publishes the package.
    pub fn publish(&self, supress_stdout: bool, dry_run: bool, skip_verify: bool) -> (c: Command)
        ensures
            c@ == (CommandView {
                args: cargo_base(self.spec_manifest_path(), supress_stdout).args + publish_args(
                    dry_run,
                    skip_verify,
                ),
                ..cargo_base(self.spec_manifest_path(), supress_stdout)
            }),
    {
        let mut cargo = self.command(supress_stdout);
        let ghost base = cargo@.args;
        cargo.arg("publish");
        if dry_run {
            cargo.arg("--dry-run");
        }
        if skip_verify {
            cargo.arg("--no-verify");
        }
        cargo.arg("--allow-dirty");
        assert(cargo@.args == base + publish_args(dry_run, skip_verify));
        cargo
    }

    /// The command that writes the lockfile anew.
    pub fn generate_lockfile(&self) -> (c: Command)
        ensures
            c@ == (CommandView {
                args: cargo_base(self.spec_manifest_path(), true).args + seq![
                    "generate-lockfile"@,
                ],
                ..cargo_base(self.spec_manifest_path(), true)
            }),
    {
        let mut cargo = self.command(true);
        let ghost base = cargo@.args;
        cargo.arg("generate-lockfile");
        assert(cargo@.args == base + seq!["generate-lockfile"@]);
        cargo
    }

    /// Whether the command of [`Cargo::generate_lockfile`] did its work;
    /// where it did not, the error is what the command wrote to its standard
    /// error.
    pub fn generate_lockfile_result(&self, output: &Output) -> (r: Result<(), String>)
        ensures
            output.status.success() ==> r is Ok,
            !output.status.success() ==> (r matches Err(msg) && msg@ == bytes_text(output.stderr@)),
    {
        if !output.status.success() {
            Err(output.stderr())
        } else {
            Ok(())
        }
    }
}

} // verus!
