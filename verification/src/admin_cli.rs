//! The requests the administrative command line accepts, as plain values:
//! the surrounding tool parses arguments and performs file and database
//! I/O, hands these to the library, and prints what comes back. File
//! arguments are carried as path texts.

use vstd::prelude::*;

verus! {

use crate::trend_store::TrendStore;
use crate::text::{str_eq, u64_to_string, spec_dec_digits};
use vstd::string::StringExecFns;

/// Create a trend store from a definition file.
pub struct TrendStoreCreate {
    pub definition: String,
}

/// Show the differences between a definition file and the live store.
pub struct TrendStoreDiff {
    pub definition: String,
}

/// Bring the live store up to a definition file.
pub struct TrendStoreUpdate {
    pub definition: String,
}

/// Delete a trend store by id.
pub struct DeleteOpt {
    pub id: i32,
}

/// Run sanity checks over a definition file.
pub struct TrendStoreCheck {
    pub definition: String,
}

/// Analyze the value ranges of one trend store part.
pub struct TrendStorePartAnalyze {
    pub name: String,
}

/// The part management commands.
pub enum TrendStorePartOpt {
    Analyze(TrendStorePartAnalyze),
}

/// Create an attribute store from a definition file.
pub struct AttributeStoreCreate {
    pub definition: String,
}

/// Bring a live attribute store up to a definition file.
pub struct AttributeStoreUpdate {
    pub definition: String,
}

/// The attribute store commands.
pub enum AttributeStoreOptCommands {
    Create(AttributeStoreCreate),
    Update(AttributeStoreUpdate),
}

/// The attribute store command with its subcommand.
pub struct AttributeStoreOpt {
    pub command: AttributeStoreOptCommands,
}

/// Create a trend materialization from a definition file.
pub struct TrendMaterializationCreate {
    pub definition: String,
}

/// Update a trend materialization from a definition file.
pub struct TrendMaterializationUpdate {
    pub definition: String,
}

/// Reset the source fingerprint of a materialization's state.
pub struct TrendMaterializationResetSourceFingerprint {
    pub materialization: String,
}

/// The trend materialization commands.
pub enum TrendMaterializationOpt {
    Create(TrendMaterializationCreate),
    Update(TrendMaterializationUpdate),
    ResetSourceFingerprint(TrendMaterializationResetSourceFingerprint),
}

/// List the configured triggers.
pub struct TriggerList {}

/// Create a trigger from a definition file.
pub struct TriggerCreate {
    pub definition: String,
}

/// Delete a trigger by name.
pub struct TriggerDelete {
    pub name: String,
}

/// Update the data definition of a trigger from a definition file.
pub struct TriggerUpdateData {
    pub definition: String,
}

/// Update the KPI function of a trigger from a definition file.
pub struct TriggerUpdateKPIFunction {
    pub definition: String,
}

/// Update a trigger from a definition file.
pub struct TriggerUpdate {
    pub definition: String,
}

/// Bring the live instance up to the declared one, asking before each
/// change unless told not to.
pub struct UpdateOpt {
    pub non_interactive: bool,
}

/// How often a part name occurs among the parts of a store.
pub open spec fn spec_name_count(
    parts: Seq<crate::trend_store::TrendStorePartView>,
    name: Seq<char>,
) -> int
    decreases parts.len(),
{
    if parts.len() == 0 {
        0
    } else {
        spec_name_count(parts.drop_last(), name) + (if parts.last().name == name {
            1int
        } else {
            0int
        })
    }
}

/// The sanity findings over a definition: one message per part whose name
/// occurs more than once, in part order.
pub open spec fn spec_check_messages(ts: crate::trend_store::TrendStoreView, upto: int) -> Seq<
    Seq<char>,
>
    decreases upto,
{
    if upto <= 0 {
        Seq::empty()
    } else {
        spec_check_messages(ts, upto - 1) + (if spec_name_count(
            ts.parts,
            ts.parts[upto - 1].name,
        ) > 1 {
            seq![
                "Error: "@ + spec_dec_digits(spec_name_count(ts.parts, ts.parts[upto - 1].name))
                    + " trend store parts with name '"@ + ts.parts[upto - 1].name + "'"@,
            ]
        } else {
            Seq::empty()
        })
    }
}

/// Counts how often a part name occurs in a store.
fn count_part_name(ts: &TrendStore, name: &str) -> (r: usize)
    ensures
        r as int == spec_name_count(ts@.parts, name@),
{
    let ghost pdv = ts.parts.deep_view();
    let mut count: usize = 0;
    let mut i: usize = 0;
    proof {
        assert(pdv.take(0) =~= Seq::<crate::trend_store::TrendStorePartView>::empty());
    }
    while i < ts.parts.len()
        invariant
            0 <= i <= ts.parts.len(),
            pdv == ts.parts.deep_view(),
            pdv.len() == ts.parts.len(),
            count as int == spec_name_count(pdv.take(i as int), name@),
            count <= i,
        decreases ts.parts.len() - i,
    {
        proof {
            assert(pdv.take(i + 1).drop_last() =~= pdv.take(i as int));
            assert(pdv.take(i + 1).last() == pdv[i as int]);
        }
        if str_eq(ts.parts[i].name.as_str(), name) {
            count = count + 1;
        }
        i = i + 1;
    }
    proof {
        assert(pdv.take(ts.parts@.len() as int) =~= pdv);
    }
    count
}

/// Checks a trend store definition for duplicate part names; part names
/// are an identity key, so any repeat is reported.
pub fn check_trend_store(ts: &TrendStore) -> (r: Vec<String>)
    ensures
        r.deep_view() == spec_check_messages(ts@, ts@.parts.len() as int),
{
    let mut messages: Vec<String> = Vec::new();
    let mut i: usize = 0;
    proof {
        assert(messages.deep_view() =~= spec_check_messages(ts@, 0));
    }
    while i < ts.parts.len()
        invariant
            0 <= i <= ts.parts.len(),
            messages.deep_view() == spec_check_messages(ts@, i as int),
        decreases ts.parts.len() - i,
    {
        let ghost m0 = messages.deep_view();
        let count = count_part_name(ts, ts.parts[i].name.as_str());
        if count > 1 {
            let mut msg = "Error: ".to_owned();
            let n = u64_to_string(count as u64);
            msg.append(n.as_str());
            msg.append(" trend store parts with name '");
            msg.append(ts.parts[i].name.as_str());
            msg.append("'");
            messages.push(msg);
            proof {
                assert(messages.deep_view() =~= m0.push(
                    "Error: "@ + spec_dec_digits(
                        spec_name_count(ts@.parts, ts@.parts[i as int].name),
                    ) + " trend store parts with name '"@ + ts@.parts[i as int].name + "'"@,
                ));
                assert(messages.deep_view() =~= spec_check_messages(ts@, i + 1));
            }
        } else {
            proof {
                assert(messages.deep_view() =~= spec_check_messages(ts@, i + 1));
            }
        }
        i = i + 1;
    }
    messages
}

} // verus!
