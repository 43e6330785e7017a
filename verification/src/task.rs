//! The unit of work: one host's end-to-end deployment pipeline instance,
//! and the connection descriptor that tells the remote capability how to
//! reach the host.

use vstd::prelude::*;
use crate::goal::DeploymentGoal;
use crate::options::TransferOptions;

verus! {

/// How to reach a host. The executor never interprets this beyond handing
/// it to the remote host capability.
#[derive(Debug)]
pub struct ConnectionDescriptor {
    pub address: String,
    pub user: Option<String>,
    pub port: Option<u16>,
}

impl Clone for ConnectionDescriptor {
    fn clone(&self) -> (r: Self)
        ensures
            r == *self,
    {
        ConnectionDescriptor {
            address: self.address.clone(),
            user: match &self.user {
                Some(u) => Some(u.clone()),
                None => None,
            },
            port: self.port,
        }
    }
}

impl ConnectionDescriptor {
    pub fn new(address: String) -> (r: Self)
        ensures
            r.address@ == address@,
            r.user is None,
            r.port is None,
    {
        ConnectionDescriptor { address, user: None, port: None }
    }
}

/// One host's deployment: a name unique within the run, a connection, an
/// opaque already-built artifact reference, the requested goal, and the
/// transfer options. Created once by the assembler; immutable thereafter.
#[derive(Debug)]
pub struct DeploymentTask {
    pub name: String,
    pub connection: ConnectionDescriptor,
    pub artifact: String,
    pub goal: DeploymentGoal,
    pub options: TransferOptions,
}

impl Clone for DeploymentTask {
    fn clone(&self) -> (r: Self)
        ensures
            r == *self,
    {
        DeploymentTask {
            name: self.name.clone(),
            connection: self.connection.clone(),
            artifact: self.artifact.clone(),
            goal: self.goal,
            options: self.options,
        }
    }
}

impl DeploymentTask {
    pub fn new(
        name: String,
        connection: ConnectionDescriptor,
        artifact: String,
        goal: DeploymentGoal,
    ) -> (t: Self)
        ensures
            t.name@ == name@,
            t.connection == connection,
            t.artifact@ == artifact@,
            t.goal == goal,
            t.options == (TransferOptions { use_compression: true, use_substitutes: true }),
    {
        DeploymentTask {
            name,
            connection,
            artifact,
            goal,
            options: TransferOptions { use_compression: true, use_substitutes: true },
        }
    }

    pub fn set_copy_options(&mut self, options: TransferOptions)
        ensures
            *final(self) == (DeploymentTask { options, ..*old(self) }),
    {
        self.options = options;
    }
}

/// No two tasks of one run may carry the same name.
pub open spec fn names_unique(tasks: Seq<DeploymentTask>) -> bool {
    forall|i: int, j: int|
        0 <= i < j < tasks.len() ==> tasks[i].name@ != tasks[j].name@
}

} // verus!
