use vstd::prelude::*;
use crate::errors::ContextError;

verus! {

/// An immutable per-invocation view of the host's context object: exactly
/// seven string fields, snapshotted atomically at construction. Either all
/// seven are captured, or construction fails as a whole and no partial
/// snapshot is ever exposed.
///
/// The remaining-time query is deliberately not part of the snapshot: each
/// call crosses back to the host, since remaining time changes while the
/// invocation runs. The boundary layer performs that host call and hands
/// its outcome to [`LambdaContext::get_remaining_time_in_millis`].
pub struct LambdaContext {
    pub function_name: String,
    pub function_version: String,
    pub invoked_function_arn: String,
    pub memory_limit_in_mb: String,
    pub aws_request_id: String,
    pub log_group_name: String,
    pub log_stream_name: String,
}

impl LambdaContext {
    /// Builds the context view from the seven attribute reads the boundary
    /// layer made on the host's context object, in their fixed order. Each
    /// argument is the attribute's string value, or `None` where the
    /// attribute was absent or could not be coerced to a string.
    ///
    /// Construction succeeds exactly when all seven reads succeeded; one
    /// missing attribute fails the whole construction, and each accessor
    /// then returns exactly the string that was supplied here.
    pub fn new(
        function_name: Option<String>,
        function_version: Option<String>,
        invoked_function_arn: Option<String>,
        memory_limit_in_mb: Option<String>,
        aws_request_id: Option<String>,
        log_group_name: Option<String>,
        log_stream_name: Option<String>,
    ) -> (r: Result<LambdaContext, ContextError>)
        ensures
            r is Ok <==> (function_name is Some && function_version is Some
                && invoked_function_arn is Some && memory_limit_in_mb is Some
                && aws_request_id is Some && log_group_name is Some
                && log_stream_name is Some),
            r matches Ok(c) ==> {
                &&& c.function_name == function_name->0
                &&& c.function_version == function_version->0
                &&& c.invoked_function_arn == invoked_function_arn->0
                &&& c.memory_limit_in_mb == memory_limit_in_mb->0
                &&& c.aws_request_id == aws_request_id->0
                &&& c.log_group_name == log_group_name->0
                &&& c.log_stream_name == log_stream_name->0
            },
            r matches Err(e) ==> e == ContextError::AttributeExtractionFailed,
    {
        match (function_name, function_version, invoked_function_arn, memory_limit_in_mb,
                aws_request_id, log_group_name, log_stream_name) {
            (Some(function_name), Some(function_version), Some(invoked_function_arn),
                Some(memory_limit_in_mb), Some(aws_request_id), Some(log_group_name),
                Some(log_stream_name)) => Ok(LambdaContext {
                function_name,
                function_version,
                invoked_function_arn,
                memory_limit_in_mb,
                aws_request_id,
                log_group_name,
                log_stream_name,
            }),
            _ => Err(ContextError::AttributeExtractionFailed),
        }
    }

    /// Name of the function that is executing, exactly as captured at
    /// construction.
    pub fn function_name(&self) -> (r: &str)
        ensures
            r@ == self.function_name@,
    {
        self.function_name.as_str()
    }

    /// The function version that is executing, exactly as captured at
    /// construction.
    pub fn function_version(&self) -> (r: &str)
        ensures
            r@ == self.function_version@,
    {
        self.function_version.as_str()
    }

    /// The ARN used to invoke this function, exactly as captured at
    /// construction.
    pub fn invoked_function_arn(&self) -> (r: &str)
        ensures
            r@ == self.invoked_function_arn@,
    {
        self.invoked_function_arn.as_str()
    }

    /// Memory limit, in MB, configured for the function, exactly as
    /// captured at construction.
    pub fn memory_limit_in_mb(&self) -> (r: &str)
        ensures
            r@ == self.memory_limit_in_mb@,
    {
        self.memory_limit_in_mb.as_str()
    }

    /// Request id associated with this invocation, exactly as captured at
    /// construction.
    pub fn aws_request_id(&self) -> (r: &str)
        ensures
            r@ == self.aws_request_id@,
    {
        self.aws_request_id.as_str()
    }

    /// Name of the log group receiving this function's logs, exactly as
    /// captured at construction.
    pub fn log_group_name(&self) -> (r: &str)
        ensures
            r@ == self.log_group_name@,
    {
        self.log_group_name.as_str()
    }

    /// Name of the log stream receiving this invocation's logs, exactly as
    /// captured at construction.
    pub fn log_stream_name(&self) -> (r: &str)
        ensures
            r@ == self.log_stream_name@,
    {
        self.log_stream_name.as_str()
    }

    /// Remaining execution time in milliseconds, as the host just reported
    /// it. The boundary layer re-invokes the host's zero-argument
    /// remaining-time method on every call — the result is never cached —
    /// and passes the coerced outcome in: `Some(ms)` when the call returned
    /// a value coercible to `u64`, `None` on any failure (missing method,
    /// wrong return type, exception during the call). Every failure
    /// collapses into the single `GetRemainingTimeFailed` outcome,
    /// independent of whether the seven eager fields were captured.
    pub fn get_remaining_time_in_millis(&self, host_reply: Option<u64>) -> (r: Result<
        u64,
        ContextError,
    >)
        ensures
            host_reply matches Some(ms) ==> r == Ok::<u64, ContextError>(ms),
            host_reply is None ==> r == Err::<u64, ContextError>(
                ContextError::GetRemainingTimeFailed,
            ),
    {
        match host_reply {
            Some(ms) => Ok(ms),
            None => Err(ContextError::GetRemainingTimeFailed),
        }
    }
}

} // verus!
