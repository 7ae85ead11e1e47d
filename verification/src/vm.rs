//! The handle that owns one loaded VM instance: identity queries, the
//! capability query, explicit teardown, and the central execute operation.
//!
//! The handle walks a fixed life cycle — loaded, executing any number of
//! times, destroyed — and every method demands a live handle, so use after
//! destruction is ruled out where the handle is used from verified code
//! rather than left undefined.

use vstd::prelude::*;

use crate::host::HostContext;
use crate::message::{
    interpret_result, interprets, marshal_message, ExecutionResult, Message, RawMessage, RawResult,
};
use crate::types::{spec_capability_code, Capabilities, EvmcError, Revision, capability_code,
    revision_code};

verus! {

/// The raw execute entry of a VM implementation: the one function of the
/// instance's dispatch table this layer calls into.  A VM implementation —
/// the other independently built side of the boundary — provides it; during
/// the call it may re-enter the host through the callback context any number
/// of times.  Nothing is assumed of what it answers: the handle's execute
/// path is verified for every possible raw result.
pub trait RawVm<H: HostContext> {
    /// Runs the code under the given revision and raw call descriptor,
    /// calling back into the host as it goes.
    fn execute_raw(
        &mut self,
        host: &mut H,
        revision: u32,
        msg: &RawMessage,
        code: &Vec<u8>,
    ) -> RawResult;
}

/// A loaded VM instance together with what it reported at load time.  The
/// handle is exclusively owned; `alive` is its place in the life cycle, and
/// every query demands it.
pub struct EvmcVm<V> {
    pub instance: V,
    pub abi_version: i32,
    pub name: Option<String>,
    pub version: Option<String>,
    pub capabilities: u32,
    pub alive: bool,
}

/// The capability query's exact semantics: the single value the VM reported
/// is compared for equality with the queried flag — not a subset test.
pub open spec fn spec_has_capability<V>(vm: EvmcVm<V>, c: Capabilities) -> bool {
    vm.capabilities as int == spec_capability_code(c)
}

impl<V> EvmcVm<V> {
    /// The interface version the instance reported; read-only.
    pub fn get_abi_version(&self) -> (r: i32)
        requires
            self.alive,
        ensures
            r == self.abi_version,
    {
        self.abi_version
    }

    /// The VM's name, valid for the handle's lifetime; an encoding error
    /// exactly when the reported name was not valid text.
    pub fn get_name(&self) -> (r: Result<String, EvmcError>)
        requires
            self.alive,
        ensures
            r is Ok <==> self.name is Some,
            r matches Ok(s) ==> self.name matches Some(n) && s@ == n@,
            r is Err ==> r == Result::<String, EvmcError>::Err(EvmcError::EncodingError),
    {
        match &self.name {
            Some(n) => Ok(n.clone()),
            None => Err(EvmcError::EncodingError),
        }
    }

    /// The VM's version string, under the same contract as the name.
    pub fn get_version(&self) -> (r: Result<String, EvmcError>)
        requires
            self.alive,
        ensures
            r is Ok <==> self.version is Some,
            r matches Ok(s) ==> self.version matches Some(n) && s@ == n@,
            r is Err ==> r == Result::<String, EvmcError>::Err(EvmcError::EncodingError),
    {
        match &self.version {
            Some(n) => Ok(n.clone()),
            None => Err(EvmcError::EncodingError),
        }
    }

    /// Whether the VM advertises the queried capability: true exactly when
    /// the single reported value equals the queried flag.
    pub fn has_capability(&self, capability: Capabilities) -> (r: bool)
        requires
            self.alive,
        ensures
            r == spec_has_capability(*self, capability),
    {
        capability_code(&capability) == self.capabilities
    }

    /// Tears the instance down.  The handle leaves the live state and no
    /// method accepts it afterwards; ownership discipline makes the
    /// teardown happen exactly once.
    pub fn destroy(&mut self)
        requires
            old(self).alive,
        ensures
            !final(self).alive,
    {
        self.alive = false;
    }

    /// The central operation: marshals the call descriptor into the raw
    /// layout, hands it with the revision and the code to the instance's
    /// raw execute entry — under the caller's host context, which is
    /// borrowed for exactly this call — and reads the raw result back.
    /// The VM's status is authoritative: the result is the exact
    /// interpretation of what the instance answered, whatever that was,
    /// and the handle itself comes back live and unchanged.
    pub fn execute<H: HostContext>(
        &mut self,
        host: &mut H,
        revision: Revision,
        msg: &Message,
        code: &Vec<u8>,
    ) -> (r: ExecutionResult) where V: RawVm<H>
        requires
            old(self).alive,
            msg.wf(),
        ensures
            final(self).alive,
            final(self).abi_version == old(self).abi_version,
            final(self).name == old(self).name,
            final(self).version == old(self).version,
            final(self).capabilities == old(self).capabilities,
            exists|raw: RawResult| interprets(raw, r),
    {
        let raw_msg = marshal_message(msg);
        let rev = revision_code(&revision);
        let raw = self.instance.execute_raw(host, rev, &raw_msg, code);
        let ghost witness = raw;
        let r = interpret_result(raw);
        proof {
            assert(interprets(witness, r));
        }
        r
    }
}

/// The capability query is an equality of flag values: querying the one
/// capability the VM reported answers true, and querying any other single
/// capability answers false — an equality, not a subset test.
pub proof fn lemma_capability_query_equality<V>(
    vm: EvmcVm<V>,
    reported: Capabilities,
    queried: Capabilities,
)
    requires
        vm.capabilities as int == spec_capability_code(reported),
    ensures
        spec_has_capability(vm, reported),
        queried != reported ==> !spec_has_capability(vm, queried),
{
}

} // verus!
