use vstd::prelude::*;

verus! {

/// The text substituted when the windowing library offers no error
/// description: the reporting path itself must never fail.
pub open spec fn no_description_text() -> Seq<char> {
    "no error description available"@
}

/// What the error reporter yields for a raw description handed back by the
/// library: the description itself when one is present and non-empty, and the
/// placeholder otherwise.
pub open spec fn described(raw: Option<String>) -> Seq<char> {
    match raw {
        Some(d) => if d@.len() > 0 {
            d@
        } else {
            no_description_text()
        },
        None => no_description_text(),
    }
}

/// Formats the windowing library's most recent error description. An absent
/// or empty description becomes a placeholder, so the message is never empty
/// and the reporter never fails.
pub fn describe_error(raw: Option<String>) -> (r: String)
    ensures
        r@ == described(raw),
        r@.len() > 0,
{
    proof {
        reveal_strlit("no error description available");
    }
    match raw {
        Some(d) => if d.as_str().is_empty() {
            "no error description available".to_owned()
        } else {
            d
        },
        None => "no error description available".to_owned(),
    }
}

/// The fatal failure taxonomy of the bootstrap. Every failure on the bootstrap
/// path is fatal: there is no degraded mode for a graphics application without
/// a window and a context.
pub enum Fatal {
    /// The windowing library's init call failed: an unrecoverable environment
    /// problem, reported before anything else is attempted.
    Environment,
    /// Window creation returned a null handle; carries the raw description the
    /// library gave when queried immediately afterwards.
    Resource { raw_description: Option<String> },
    /// A required graphics extension symbol could not be resolved; reported
    /// before the loop, where the failure would otherwise surface
    /// unpredictably later.
    Extension,
}

/// The diagnostic text for each fatal failure.
pub open spec fn fatal_text(f: Fatal) -> Seq<char> {
    match f {
        Fatal::Environment => "Failed to initialize GLFW."@,
        Fatal::Resource { raw_description } => "Failed to create window: "@ + described(
            raw_description,
        ),
        Fatal::Extension => "Failed to get OpenGL extension function pointer"@,
    }
}

/// Renders the diagnostic for a fatal failure; the message is never empty.
pub fn fatal_message(f: &Fatal) -> (r: String)
    ensures
        r@ == fatal_text(*f),
        r@.len() > 0,
{
    match f {
        Fatal::Environment => {
            proof {
                reveal_strlit("Failed to initialize GLFW.");
            }
            "Failed to initialize GLFW.".to_owned()
        },
        Fatal::Resource { raw_description } => {
            proof {
                reveal_strlit("Failed to create window: ");
            }
            let description = match raw_description {
                Some(d) => describe_error(Some(d.clone())),
                None => describe_error(None),
            };
            "Failed to create window: ".to_owned().concat(description.as_str())
        },
        Fatal::Extension => {
            proof {
                reveal_strlit("Failed to get OpenGL extension function pointer");
            }
            "Failed to get OpenGL extension function pointer".to_owned()
        },
    }
}

/// The process exit code for a bootstrap outcome: zero exactly on success,
/// one on any fatal failure.
pub fn exit_code(outcome: &Option<Fatal>) -> (c: i32)
    ensures
        *outcome is None ==> c == 0,
        *outcome is Some ==> c == 1,
{
    match outcome {
        None => 0,
        Some(_) => 1,
    }
}

} // verus!
