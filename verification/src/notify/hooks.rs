//! Checks on hook scripts and the names under which a script finds the
//! victim's data.

use vstd::prelude::*;
use vstd::string::StringExecFns;
use crate::text::owned;

verus! {

/// What the file system says of a script path.
#[derive(Debug, Clone, Copy, PartialEq, Eq, Structural)]
pub struct ScriptFacts {
    /// Whether the path leads to anything.
    pub exists: bool,
    /// Whether the path itself could be examined without following links.
    pub link_readable: bool,
    /// Whether the path itself is a symbolic link.
    pub is_symlink: bool,
    /// For a link: whether its target could be resolved.
    pub link_resolves: bool,
    /// For a link: whether the resolved target is a regular file.
    pub target_is_file: bool,
    /// Whether the path, links followed, is a regular file.
    pub is_file: bool,
    /// The owner of the path itself.
    pub owner_uid: u32,
    /// The user that the daemon runs as.
    pub current_uid: u32,
    /// Whether the file's permissions could be read.
    pub mode_readable: bool,
    /// The permission bits.
    pub mode: u32,
}

/// Why a hook script was refused.
#[derive(Debug, Clone, Copy, PartialEq, Eq, Structural)]
pub enum HookError {
    /// Nothing is found at the path.
    DoesNotExist,
    /// The path could not be examined.
    UnreadableLinkMetadata,
    /// The path is a link whose target could not be resolved.
    UnresolvableSymlink,
    /// The path is a link to something that is no regular file.
    SymlinkToNonFile,
    /// The path is no regular file.
    NotAFile,
    /// The file's permissions could not be read.
    UnreadableMetadata,
    /// Nobody may execute the file.
    NotExecutable,
}

/// What an accepted hook script is still warned about.
#[derive(Debug, Clone, Copy, PartialEq, Eq, Structural)]
pub enum HookWarning {
    /// The path is a symbolic link.
    IsSymlink,
    /// The script belongs neither to root nor to the daemon's user.
    ForeignOwner,
}

/// The execute bits of a permission mode: owner, group and others.
pub const EXECUTE_BITS: u32 = 0o111;

impl ScriptFacts {
    /// The first check that the script fails, in the order in which the
    /// checks are made, or `None` where it passes all.
    pub open spec fn first_failure(self) -> Option<HookError> {
        if !self.exists {
            Some(HookError::DoesNotExist)
        } else if !self.link_readable {
            Some(HookError::UnreadableLinkMetadata)
        } else if self.is_symlink && !self.link_resolves {
            Some(HookError::UnresolvableSymlink)
        } else if self.is_symlink && !self.target_is_file {
            Some(HookError::SymlinkToNonFile)
        } else if !self.is_file {
            Some(HookError::NotAFile)
        } else if !self.mode_readable {
            Some(HookError::UnreadableMetadata)
        } else if self.mode & EXECUTE_BITS == 0 {
            Some(HookError::NotExecutable)
        } else {
            None
        }
    }

    /// Whether the owner is neither root nor the daemon's user.
    pub open spec fn foreign_owner(self) -> bool {
        self.owner_uid != 0 && self.owner_uid != self.current_uid
    }

    /// The warnings that the script earns, in the order in which they are
    /// raised.
    pub open spec fn warnings(self) -> Seq<HookWarning> {
        let a = if self.is_symlink {
            seq![HookWarning::IsSymlink]
        } else {
            Seq::empty()
        };
        let b = if self.foreign_owner() {
            seq![HookWarning::ForeignOwner]
        } else {
            Seq::empty()
        };
        a + b
    }
}

/// The facts of an optional script.
pub open spec fn failure_of(script: Option<&ScriptFacts>) -> Option<HookError> {
    match script {
        Some(facts) => facts.first_failure(),
        None => None,
    }
}

/// Checks hook scripts before the daemon relies on them.
pub struct HookValidator;

impl HookValidator {
    /// Checks one hook script: it exists, can be examined, is a regular
    /// file (a link must resolve to one) and somebody may execute it. The
    /// error is the first check that fails.
    pub fn validate_hook_script(facts: &ScriptFacts) -> (r: Result<(), HookError>)
        ensures
            match facts.first_failure() {
                Some(e) => r == Err::<(), HookError>(e),
                None => r == Ok::<(), HookError>(()),
            },
    {
        if !facts.exists {
            return Err(HookError::DoesNotExist);
        }
        if !facts.link_readable {
            return Err(HookError::UnreadableLinkMetadata);
        }
        if facts.is_symlink {
            if !facts.link_resolves {
                return Err(HookError::UnresolvableSymlink);
            }
            if !facts.target_is_file {
                return Err(HookError::SymlinkToNonFile);
            }
        }
        if !facts.is_file {
            return Err(HookError::NotAFile);
        }
        if !facts.mode_readable {
            return Err(HookError::UnreadableMetadata);
        }
        if facts.mode & EXECUTE_BITS == 0 {
            return Err(HookError::NotExecutable);
        }
        Ok(())
    }

    /// What an accepted script is warned about: being a link, and
    /// belonging to a user other than root and the daemon's.
    pub fn warnings(facts: &ScriptFacts) -> (w: Vec<HookWarning>)
        ensures
            w@ == facts.warnings(),
    {
        let mut w: Vec<HookWarning> = Vec::new();
        if facts.is_symlink {
            w.push(HookWarning::IsSymlink);
        }
        if facts.owner_uid != 0 && facts.owner_uid != facts.current_uid {
            w.push(HookWarning::ForeignOwner);
        }
        w
    }

    /// Checks the pre-kill and the post-kill script, in this order, each
    /// only where it is configured. The error is that of the first script
    /// that fails.
    pub fn validate_hooks(
        pre_kill_script: Option<&ScriptFacts>,
        post_kill_script: Option<&ScriptFacts>,
    ) -> (r: Result<(), HookError>)
        ensures
            match failure_of(pre_kill_script) {
                Some(e) => r == Err::<(), HookError>(e),
                None => match failure_of(post_kill_script) {
                    Some(e) => r == Err::<(), HookError>(e),
                    None => r == Ok::<(), HookError>(()),
                },
            },
    {
        match pre_kill_script {
            Some(facts) => {
                HookValidator::validate_hook_script(facts)?;
            },
            None => {},
        }
        match post_kill_script {
            Some(facts) => {
                HookValidator::validate_hook_script(facts)?;
            },
            None => {},
        }
        Ok(())
    }
}

impl HookError {
    /// The words that describe the error.
    pub open spec fn spec_message(self) -> Seq<char> {
        match self {
            HookError::DoesNotExist => "Script does not exist"@,
            HookError::UnreadableLinkMetadata => "Failed to read symlink metadata"@,
            HookError::UnresolvableSymlink => "Failed to resolve symlink"@,
            HookError::SymlinkToNonFile => "Symlink points to non-file target"@,
            HookError::NotAFile => "Path is not a file"@,
            HookError::UnreadableMetadata => "Failed to read metadata"@,
            HookError::NotExecutable => "Script is not executable"@,
        }
    }

    /// The words that describe the error.
    pub fn message(&self) -> (text: String)
        ensures
            text@ == self.spec_message(),
    {
        match self {
            HookError::DoesNotExist => owned("Script does not exist"),
            HookError::UnreadableLinkMetadata => owned("Failed to read symlink metadata"),
            HookError::UnresolvableSymlink => owned("Failed to resolve symlink"),
            HookError::SymlinkToNonFile => owned("Symlink points to non-file target"),
            HookError::NotAFile => owned("Path is not a file"),
            HookError::UnreadableMetadata => owned("Failed to read metadata"),
            HookError::NotExecutable => owned("Script is not executable"),
        }
    }
}

/// The environment variables under which a hook script finds the victim's
/// data.
pub struct HookEnvironment;

impl HookEnvironment {
    /// The names of the variables: the victim's process id, its sanitized
    /// name, its resident size in KiB and its score.
    pub fn get_variable_names() -> (names: Vec<&'static str>)
        ensures
            names@.len() == 4,
            names@[0]@ == "OOM_GUARD_PID"@,
            names@[1]@ == "OOM_GUARD_NAME"@,
            names@[2]@ == "OOM_GUARD_RSS"@,
            names@[3]@ == "OOM_GUARD_SCORE"@,
    {
        let mut names: Vec<&'static str> = Vec::new();
        names.push("OOM_GUARD_PID");
        names.push("OOM_GUARD_NAME");
        names.push("OOM_GUARD_RSS");
        names.push("OOM_GUARD_SCORE");
        names
    }

    /// The text that [`HookEnvironment::describe`] gives.
    pub open spec fn description() -> Seq<char> {
        "Hook scripts receive the following environment variables:\n"@
            + " - OOM_GUARD_PID: Process ID of the killed process\n"@
            + " - OOM_GUARD_NAME: Name of the killed process\n"@
            + " - OOM_GUARD_RSS: Resident Set Size in KiB\n"@
            + " - OOM_GUARD_SCORE: OOM score of the process"@
    }

    /// A description of the variables, one per line.
    pub fn describe() -> (text: String)
        ensures
            text@ == HookEnvironment::description(),
    {
        let mut text = owned("Hook scripts receive the following environment variables:\n");
        text.append(" - OOM_GUARD_PID: Process ID of the killed process\n");
        text.append(" - OOM_GUARD_NAME: Name of the killed process\n");
        text.append(" - OOM_GUARD_RSS: Resident Set Size in KiB\n");
        text.append(" - OOM_GUARD_SCORE: OOM score of the process");
        text
    }
}

} // verus!
