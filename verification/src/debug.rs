//! The debug channel: report filters, message classification and the
//! severity-fanout of message-control configuration.
//!
//! Validation messages are advisory only and never change control flow;
//! they reach the caller through an asynchronously invoked callback,
//! filtered by source, type and severity.

use vstd::prelude::*;

verus! {

/// Message filter: either everything of a classification, or one chosen
/// value.
#[derive(Debug, Copy, Clone, PartialEq, Eq)]
pub enum MsgFilter<T> {
    /// Referencing all values of the type `T`.
    All,
    /// Referencing the one given value.
    Only(T),
}

/// Debug report flags: which severities trigger a debug report.
#[derive(Debug, Copy, Clone, PartialEq, Eq, Structural)]
pub struct DebugReport {
    pub notification: bool,
    pub warning: bool,
    pub error: bool,
    pub performance_warning: bool,
}

impl DebugReport {
    /// No severity reported.
    pub fn empty() -> (r: DebugReport)
        ensures
            r == (DebugReport {
                notification: false,
                warning: false,
                error: false,
                performance_warning: false,
            }),
    {
        DebugReport { notification: false, warning: false, error: false, performance_warning: false }
    }

    /// Every severity reported.
    pub fn all() -> (r: DebugReport)
        ensures
            r == (DebugReport {
                notification: true,
                warning: true,
                error: true,
                performance_warning: true,
            }),
    {
        DebugReport { notification: true, warning: true, error: true, performance_warning: true }
    }

    /// The union of two severity sets.
    pub open spec fn spec_union(self, other: DebugReport) -> DebugReport {
        DebugReport {
            notification: self.notification || other.notification,
            warning: self.warning || other.warning,
            error: self.error || other.error,
            performance_warning: self.performance_warning || other.performance_warning,
        }
    }

    /// Combine two severity sets.
    pub fn union(self, other: DebugReport) -> (r: DebugReport)
        ensures
            r == self.spec_union(other),
    {
        DebugReport {
            notification: self.notification || other.notification,
            warning: self.warning || other.warning,
            error: self.error || other.error,
            performance_warning: self.performance_warning || other.performance_warning,
        }
    }
}

/// One severity class of a debug report.
#[derive(Debug, Copy, Clone, PartialEq, Eq, Structural)]
pub enum DebugSeverity {
    Notification,
    Warning,
    Error,
    PerformanceWarning,
}

/// Debug message source.
#[derive(Debug, Copy, Clone, PartialEq, Eq, Structural)]
pub enum DebugSource {
    Api,
    ShaderCompiler,
    Wsi,
    ThirdParty,
    Application,
    Other,
}

/// Debug message type.
#[derive(Debug, Copy, Clone, PartialEq, Eq, Structural)]
pub enum DebugType {
    Error,
    Deprecated,
    UndefinedBehavior,
    Performance,
    Portability,
    Marker,
    PushGroup,
    PopGroup,
    Other,
}

/// Object namespaces that a handle can belong to, for debug labelling.
#[derive(Debug, Copy, Clone, PartialEq, Eq, Structural)]
pub enum ObjectType {
    Buffer,
    Shader,
    Image,
    VertexArray,
    Pipeline,
    Framebuffer,
    Renderbuffer,
    Sampler,
}

/// A labelled object: a raw handle in a known object namespace.
pub trait Object {
    /// The object namespace this handle belongs to.
    fn object_type(&self) -> ObjectType;

    /// The raw name issued by the context.
    fn handle(&self) -> u32;
}

/// One message-control configuration call: enable or disable reporting for
/// messages of one source and type filter at one severity.
#[derive(Debug, Copy, Clone, PartialEq, Eq)]
pub struct DebugControlCommand {
    pub src: MsgFilter<DebugSource>,
    pub ty: MsgFilter<DebugType>,
    pub severity: DebugSeverity,
    pub enable: bool,
}

/// The message-control call for one severity.
pub open spec fn spec_debug_control_cmd(
    enable: bool,
    src: MsgFilter<DebugSource>,
    ty: MsgFilter<DebugType>,
    severity: DebugSeverity,
) -> DebugControlCommand {
    DebugControlCommand { src, ty, severity, enable }
}

/// The message-control calls for a severity set: one call per severity
/// present in the set, in the fixed order notification, warning, error,
/// performance warning.
pub open spec fn spec_debug_control_cmds(
    enable: bool,
    src: MsgFilter<DebugSource>,
    ty: MsgFilter<DebugType>,
    flags: DebugReport,
) -> Seq<DebugControlCommand> {
    (if flags.notification {
        seq![spec_debug_control_cmd(enable, src, ty, DebugSeverity::Notification)]
    } else {
        Seq::empty()
    }) + (if flags.warning {
        seq![spec_debug_control_cmd(enable, src, ty, DebugSeverity::Warning)]
    } else {
        Seq::empty()
    }) + (if flags.error {
        seq![spec_debug_control_cmd(enable, src, ty, DebugSeverity::Error)]
    } else {
        Seq::empty()
    }) + (if flags.performance_warning {
        seq![spec_debug_control_cmd(enable, src, ty, DebugSeverity::PerformanceWarning)]
    } else {
        Seq::empty()
    })
}

/// Compute the message-control calls that enabling (or disabling) debug
/// messages for the given filters and severity set performs: one call per
/// severity present in the set.
pub fn debug_control_commands(
    enable: bool,
    src: MsgFilter<DebugSource>,
    ty: MsgFilter<DebugType>,
    flags: DebugReport,
) -> (r: Vec<DebugControlCommand>)
    ensures
        r@ == spec_debug_control_cmds(enable, src, ty, flags),
{
    let mut out: Vec<DebugControlCommand> = Vec::new();
    if flags.notification {
        out.push(DebugControlCommand { src, ty, severity: DebugSeverity::Notification, enable });
    }
    if flags.warning {
        out.push(DebugControlCommand { src, ty, severity: DebugSeverity::Warning, enable });
    }
    if flags.error {
        out.push(DebugControlCommand { src, ty, severity: DebugSeverity::Error, enable });
    }
    if flags.performance_warning {
        out.push(
            DebugControlCommand { src, ty, severity: DebugSeverity::PerformanceWarning, enable },
        );
    }
    proof {
        assert(out@ =~= spec_debug_control_cmds(enable, src, ty, flags));
    }
    out
}

} // verus!
