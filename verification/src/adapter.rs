use vstd::prelude::*;
use crate::context::LambdaContext;
use crate::errors::ContextError;
use crate::errors::ConversionError;
use crate::errors::Diagnostic;
use crate::errors::HandlerError;
use crate::errors::HostException;
use crate::errors::translate;
use crate::value::Value;

verus! {

/// Result shape accepted from user handler code: a canonical value on
/// success, or an opaque error reduced to its diagnostic text on failure.
pub type LambdaResult = Result<Value, HandlerError>;

/// Orchestrates one invocation of a user handler at the host boundary.
///
/// The boundary layer has already decoded the host's event object into a
/// canonical value (`event`) and snapshotted the host's context object
/// (`context`); each argument carries the outcome of that step. In order,
/// fail-fast:
///
/// 1. a decode failure is translated and returned; the handler is never
///    called;
/// 2. a context-construction failure is translated and returned likewise;
/// 3. otherwise the handler is called exactly once, synchronously, on the
///    calling thread;
/// 4. its `Ok` value is returned for the boundary layer to encode back into
///    a host object; its `Err` is translated into the single host-visible
///    exception kind, whose message is the error's full diagnostic text.
pub fn handler<F: Fn(Value, LambdaContext) -> LambdaResult>(
    f: F,
    event: Result<Value, ConversionError>,
    context: Result<LambdaContext, ContextError>,
) -> (r: Result<Value, HostException>)
    requires
        event is Ok && context is Ok ==> call_requires(f, (event->Ok_0, context->Ok_0)),
    ensures
        event matches Err(e) ==> (r matches Err(x) && x.message@ == e.text()),
        context matches Err(e) ==> (event is Ok ==> (r matches Err(x) && x.message@ == e.text())),
        (event is Ok && context is Ok) ==> exists|out: LambdaResult|
            {
                &&& #[trigger] call_ensures(f, (event->Ok_0, context->Ok_0), out)
                &&& (out matches Ok(v) ==> r == Ok::<Value, HostException>(v))
                &&& (out matches Err(e) ==> (r matches Err(x) && x.message@ == e.text()))
            },
{
    let ev = match event {
        Ok(ev) => ev,
        Err(e) => {
            return Err(translate(&e));
        },
    };
    let cx = match context {
        Ok(cx) => cx,
        Err(e) => {
            return Err(translate(&e));
        },
    };
    match f(ev, cx) {
        Ok(v) => Ok(v),
        Err(e) => Err(translate(&e)),
    }
}

} // verus!
