use vstd::prelude::*;

verus! {

/// The hint value standing for a boolean "on" request (`GLFW_TRUE`).
pub const GLFW_TRUE: i32 = 1;

/// The hint value standing for a boolean "off" request (`GLFW_FALSE`).
pub const GLFW_FALSE: i32 = 0;

/// Hint key: whether the user may resize the window.
pub const GLFW_RESIZABLE: i32 = 0x0002_0003;

/// Hint key: whether the framebuffer is double buffered.
pub const GLFW_DOUBLEBUFFER: i32 = 0x0002_1010;

/// The desktop OpenGL client API selector.
pub const GLFW_OPENGL_API: i32 = 0x0003_0001;

/// Hint key: the major version of the requested client API context.
pub const GLFW_CONTEXT_VERSION_MAJOR: i32 = 0x0002_2002;

/// Hint key: the minor version of the requested client API context.
pub const GLFW_CONTEXT_VERSION_MINOR: i32 = 0x0002_2003;

/// Hint key: which OpenGL profile the context must implement.
pub const GLFW_OPENGL_PROFILE: i32 = 0x0002_2008;

/// Profile value: the core profile, with deprecated features removed.
pub const GLFW_OPENGL_CORE_PROFILE: i32 = 0x0003_2001;

/// Profile value: no profile preference.
pub const GLFW_OPENGL_ANY_PROFILE: i32 = 0;

/// Hint key: whether the context should be a debug context.
pub const GLFW_OPENGL_DEBUG_CONTEXT: i32 = 0x0002_2007;

/// One window/context creation hint: a key/value pair handed to the windowing
/// library's set-hint call before the window is created. Hints applied after
/// creation have no effect, so the whole list is built up front.
#[derive(Clone, Copy, Debug, PartialEq, Eq, Structural)]
pub struct Hint {
    pub key: i32,
    pub value: i32,
}

/// The hint value that encodes a boolean request.
pub open spec fn flag_value(b: bool) -> i32 {
    if b {
        GLFW_TRUE
    } else {
        GLFW_FALSE
    }
}

/// The exact ordered hint list for a requested configuration: resizability,
/// the OpenGL client API, buffering mode, context version, profile, and the
/// debug flag, in the order they are applied.
pub open spec fn hint_seq(
    resizable: bool,
    api_major: i32,
    api_minor: i32,
    debug: bool,
    double_buffered: bool,
    core_profile: bool,
) -> Seq<Hint> {
    seq![
        Hint { key: GLFW_RESIZABLE, value: flag_value(resizable) },
        Hint { key: GLFW_OPENGL_API, value: GLFW_TRUE },
        Hint { key: GLFW_DOUBLEBUFFER, value: flag_value(double_buffered) },
        Hint { key: GLFW_CONTEXT_VERSION_MAJOR, value: api_major },
        Hint { key: GLFW_CONTEXT_VERSION_MINOR, value: api_minor },
        Hint {
            key: GLFW_OPENGL_PROFILE,
            value: if core_profile {
                GLFW_OPENGL_CORE_PROFILE
            } else {
                GLFW_OPENGL_ANY_PROFILE
            },
        },
        Hint { key: GLFW_OPENGL_DEBUG_CONTEXT, value: flag_value(debug) },
    ]
}

/// Builds the ordered hints to apply before window creation. Every requested
/// value appears exactly as given; no default is silently substituted.
pub fn build_hints(
    resizable: bool,
    api_major: i32,
    api_minor: i32,
    debug: bool,
    double_buffered: bool,
    core_profile: bool,
) -> (r: Vec<Hint>)
    ensures
        r@ == hint_seq(resizable, api_major, api_minor, debug, double_buffered, core_profile),
{
    let mut r: Vec<Hint> = Vec::new();
    r.push(Hint { key: GLFW_RESIZABLE, value: if resizable { GLFW_TRUE } else { GLFW_FALSE } });
    r.push(Hint { key: GLFW_OPENGL_API, value: GLFW_TRUE });
    r.push(
        Hint {
            key: GLFW_DOUBLEBUFFER,
            value: if double_buffered {
                GLFW_TRUE
            } else {
                GLFW_FALSE
            },
        },
    );
    r.push(Hint { key: GLFW_CONTEXT_VERSION_MAJOR, value: api_major });
    r.push(Hint { key: GLFW_CONTEXT_VERSION_MINOR, value: api_minor });
    r.push(
        Hint {
            key: GLFW_OPENGL_PROFILE,
            value: if core_profile {
                GLFW_OPENGL_CORE_PROFILE
            } else {
                GLFW_OPENGL_ANY_PROFILE
            },
        },
    );
    r.push(Hint { key: GLFW_OPENGL_DEBUG_CONTEXT, value: if debug { GLFW_TRUE } else { GLFW_FALSE } });
    proof {
        assert(r@ =~= hint_seq(resizable, api_major, api_minor, debug, double_buffered, core_profile));
    }
    r
}

/// Every requested value is taken over exactly: the hint list holds, at fixed
/// positions, the resizability flag, the buffering flag, both version numbers,
/// the profile choice and the debug flag as they were requested.
pub proof fn lemma_hints_match_request(
    resizable: bool,
    api_major: i32,
    api_minor: i32,
    debug: bool,
    double_buffered: bool,
    core_profile: bool,
)
    ensures
        ({
            let s = hint_seq(resizable, api_major, api_minor, debug, double_buffered, core_profile);
            &&& s.len() == 7
            &&& s[0] == (Hint { key: GLFW_RESIZABLE, value: flag_value(resizable) })
            &&& s[1] == (Hint { key: GLFW_OPENGL_API, value: GLFW_TRUE })
            &&& s[2] == (Hint { key: GLFW_DOUBLEBUFFER, value: flag_value(double_buffered) })
            &&& s[3] == (Hint { key: GLFW_CONTEXT_VERSION_MAJOR, value: api_major })
            &&& s[4] == (Hint { key: GLFW_CONTEXT_VERSION_MINOR, value: api_minor })
            &&& s[5] == (Hint {
                key: GLFW_OPENGL_PROFILE,
                value: if core_profile {
                    GLFW_OPENGL_CORE_PROFILE
                } else {
                    GLFW_OPENGL_ANY_PROFILE
                },
            })
            &&& s[6] == (Hint { key: GLFW_OPENGL_DEBUG_CONTEXT, value: flag_value(debug) })
        }),
{
}

} // verus!
