use vstd::prelude::*;

verus! {

/// The ambient facts of one call, as the surrounding execution environment
/// reports them: who is calling, which account this instance runs as, and
/// the current time in nanoseconds.
pub struct CallContext {
    /// The account that made the call.
    pub predecessor_account_id: String,
    /// The account this instance itself runs as; its owner/administrator.
    pub current_account_id: String,
    /// The current timestamp, nanosecond resolution.
    pub block_timestamp: u64,
}

/// The role a caller holds with respect to one oracle instance.
#[derive(Clone, Copy, Debug, PartialEq, Eq, Structural)]
pub enum Role {
    /// The caller is the instance's own account: the owning party.
    Administrator,
    /// The caller is the designated reporter for the condition value.
    Reporter,
    /// Anyone else.
    Other,
}

/// The caller is the administrator: its account equals the instance's own.
pub open spec fn spec_is_administrator(ctx: &CallContext) -> bool {
    ctx.predecessor_account_id@ == ctx.current_account_id@
}

/// The caller is the designated reporter.
pub open spec fn spec_is_reporter(ctx: &CallContext, reporter: &String) -> bool {
    ctx.predecessor_account_id@ == reporter@
}

/// The role of the caller: administrator if it is the instance's own
/// account, else reporter if it is the designated reporter, else other.
pub open spec fn spec_role_of(ctx: &CallContext, reporter: &String) -> Role {
    if spec_is_administrator(ctx) {
        Role::Administrator
    } else if spec_is_reporter(ctx, reporter) {
        Role::Reporter
    } else {
        Role::Other
    }
}

/// Decide whether the caller is the administrator.
pub fn is_administrator(ctx: &CallContext) -> (b: bool)
    ensures
        b == spec_is_administrator(ctx),
{
    ctx.predecessor_account_id == ctx.current_account_id
}

/// Decide whether the caller is the designated reporter.
pub fn is_reporter(ctx: &CallContext, reporter: &String) -> (b: bool)
    ensures
        b == spec_is_reporter(ctx, reporter),
{
    ctx.predecessor_account_id == *reporter
}

/// Evaluate the caller's role, the single decision point every privileged
/// operation consults.
pub fn role_of(ctx: &CallContext, reporter: &String) -> (r: Role)
    ensures
        r == spec_role_of(ctx, reporter),
{
    if is_administrator(ctx) {
        Role::Administrator
    } else if is_reporter(ctx, reporter) {
        Role::Reporter
    } else {
        Role::Other
    }
}

} // verus!
