//! The requests the operational command line accepts, as plain values:
//! the surrounding tool parses arguments and performs file, network and
//! database I/O, hands these to the library, and prints what comes back.
//! File arguments are carried as path texts.

use vstd::prelude::*;

verus! {

/// List the configured triggers.
pub struct TriggerList {}

/// Create a trigger from a definition file, optionally verifying and
/// enabling it afterwards.
pub struct TriggerCreate {
    pub verify: bool,
    pub enable: bool,
    pub definition: String,
}

/// Delete a trigger by name.
pub struct TriggerDelete {
    pub name: String,
}

/// Update a trigger from a definition file, optionally verifying it
/// afterwards.
pub struct TriggerUpdate {
    pub verify: bool,
    pub definition: String,
}

/// Rename a trigger: the renamed definition and the old name, which must
/// differ from the new one.
pub struct TriggerRename {
    pub verify: bool,
    pub definition: String,
    pub old_name: String,
}

/// Run basic verification on a trigger.
pub struct TriggerVerify {
    pub name: String,
}

/// Enable a trigger.
pub struct TriggerEnable {
    pub name: String,
}

/// Disable a trigger.
pub struct TriggerDisable {
    pub name: String,
}

/// Dump a trigger's definition.
pub struct TriggerDump {
    pub name: String,
}

/// The trigger commands.
pub enum TriggerOptCommands {
    List(TriggerList),
    Create(TriggerCreate),
    Delete(TriggerDelete),
    Enable(TriggerEnable),
    Disable(TriggerDisable),
    Update(TriggerUpdate),
    Rename(TriggerRename),
    Dump(TriggerDump),
    Verify(TriggerVerify),
}

/// The trigger command with its subcommand.
pub struct TriggerOpt {
    pub command: TriggerOptCommands,
}

/// Create a relation from a definition file.
pub struct RelationCreate {
    pub definition: String,
}

/// The relation commands.
pub enum RelationOptCommands {
    Create(RelationCreate),
}

/// The relation command with its subcommand.
pub struct RelationOpt {
    pub command: RelationOptCommands,
}

/// Load a data file into the warehouse.
pub struct LoadDataOpt {
    pub data_source: Option<String>,
    pub parser_config: Option<String>,
    pub create_partitions: bool,
    pub file: String,
}

/// Start a local cluster, optionally initializing it from a definition
/// root and creating partitions.
pub struct StartOpt {
    pub create_partitions: bool,
    pub node_count: Option<u8>,
    pub instance_root: Option<String>,
}

} // verus!
