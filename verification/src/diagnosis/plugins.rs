//! The plugin probe: pending updates and inactive plugins in the
//! structured plugin listing.

use vstd::prelude::*;
use vstd::string::*;
use crate::diagnosis::DiagnosisReport;
use crate::diagnosis::Status;
use crate::text::dec_str;
use crate::text::str_eq;
use crate::text::string_views;
use crate::text::u64_to_string;

verus! {

/// One entry of the structured plugin listing: name, activation status,
/// pending-update state, and version, as the tool reports them.
pub struct PluginRecord {
    pub name: String,
    pub status: String,
    pub update: String,
    pub version: String,
}

/// The plugin probe.
pub struct PluginDiagnosis;

/// The plugins with a pending update, in listing order.
pub open spec fn updates_available(plugins: Seq<PluginRecord>) -> Seq<PluginRecord>
    decreases plugins.len(),
{
    if plugins.len() == 0 {
        Seq::empty()
    } else {
        let rest = updates_available(plugins.drop_first());
        if plugins[0].update@ == "available"@ {
            seq![plugins[0]] + rest
        } else {
            rest
        }
    }
}

/// The inactive plugins, in listing order.
pub open spec fn inactive_plugins(plugins: Seq<PluginRecord>) -> Seq<PluginRecord>
    decreases plugins.len(),
{
    if plugins.len() == 0 {
        Seq::empty()
    } else {
        let rest = inactive_plugins(plugins.drop_first());
        if plugins[0].status@ == "inactive"@ {
            seq![plugins[0]] + rest
        } else {
            rest
        }
    }
}

/// The entry line naming one plugin with its version.
pub open spec fn update_entry_line(plugin: PluginRecord) -> Seq<char> {
    " - "@ + plugin.name@ + " ("@ + plugin.version@ + ")"@
}

/// The entry line naming one plugin.
pub open spec fn inactive_entry_line(plugin: PluginRecord) -> Seq<char> {
    " - "@ + plugin.name@
}

/// The detail lines of the update check: each pending update enumerated
/// by name and version, or the all-clear line when there is none.
pub open spec fn update_lines(plugins: Seq<PluginRecord>) -> Seq<Seq<char>> {
    let updates = updates_available(plugins);
    if updates.len() > 0 {
        seq![dec_str(updates.len() as int) + " plugins have updates available:"@]
            + updates.map_values(|p: PluginRecord| update_entry_line(p))
    } else {
        seq!["All plugins are up to date."@]
    }
}

/// The detail lines of the inactive check: each inactive plugin by name,
/// or nothing when there is none.
pub open spec fn inactive_lines(plugins: Seq<PluginRecord>) -> Seq<Seq<char>> {
    let inactive = inactive_plugins(plugins);
    if inactive.len() > 0 {
        seq![dec_str(inactive.len() as int) + " inactive plugins found (consider removing checks):"@]
            + inactive.map_values(|p: PluginRecord| inactive_entry_line(p))
    } else {
        Seq::empty()
    }
}

/// The severity of the plugin probe: any pending update is worth a
/// warning.
pub open spec fn plugins_status(plugins: Seq<PluginRecord>) -> Status {
    if updates_available(plugins).len() > 0 {
        Status::Warning
    } else {
        Status::Okay
    }
}

/// The summary message of the plugin probe.
pub open spec fn plugins_message(plugins: Seq<PluginRecord>) -> Seq<char> {
    "Analyzed "@ + dec_str(plugins.len() as int) + " plugins."@
}

impl PluginDiagnosis {
    /// Analyzes the structured plugin listing: a warning with one line per
    /// pending update, the all-clear line when there is none, and an
    /// enumeration of inactive plugins.
    pub fn analyze_plugins(&self, plugins: &Vec<PluginRecord>) -> (report: DiagnosisReport)
        ensures
            report@.module == "Plugins"@,
            report@.message == plugins_message(plugins@),
            report@.status == plugins_status(plugins@),
            report@.details == update_lines(plugins@) + inactive_lines(plugins@),
    {
        let mut details: Vec<String> = Vec::new();
        let ghost all = plugins@;
        let n = plugins.len();

        // pending updates
        let mut update_count: usize = 0;
        let mut update_entries: Vec<String> = Vec::new();
        let ghost mut upd = Seq::<PluginRecord>::empty();
        let mut i: usize = 0;
        proof {
            assert(all.skip(0) =~= all);
            assert(updates_available(all) =~= upd + updates_available(all.skip(0)));
        }
        while i < n
            invariant
                n == all.len(),
                plugins@ == all,
                i <= n,
                updates_available(all) =~= upd + updates_available(all.skip(i as int)),
                update_count == upd.len(),
                update_count <= i,
                update_entries@.len() == update_count,
                forall|k: int|
                    0 <= k < update_count ==> update_entries@[k]@ == update_entry_line(upd[k]),
            decreases n - i,
        {
            let ghost t = all.skip(i as int);
            proof {
                assert(t.drop_first() =~= all.skip(i as int + 1));
                assert(t[0] == all[i as int]);
            }
            let plugin = &plugins[i];
            if str_eq(plugin.update.as_str(), "available") {
                update_count = update_count + 1;
                let mut entry = " - ".to_owned();
                entry.append(plugin.name.as_str());
                entry.append(" (");
                entry.append(plugin.version.as_str());
                entry.append(")");
                let ghost entry_view = entry@;
                update_entries.push(entry);
                proof {
                    let kept = upd + seq![all[i as int]];
                    assert(kept + updates_available(all.skip(i as int + 1)) =~= upd + (seq![
                        all[i as int],
                    ] + updates_available(all.skip(i as int + 1))));
                    assert(entry_view == update_entry_line(all[i as int]));
                    assert(forall|k: int| 0 <= k < upd.len() ==> kept[k] == upd[k]);
                    upd = kept;
                }
            }
            i = i + 1;
        }
        proof {
            assert(all.skip(n as int) =~= Seq::<PluginRecord>::empty());
            assert(upd + Seq::<PluginRecord>::empty() =~= upd);
            assert(upd =~= updates_available(all));
            assert(string_views(update_entries@) =~= upd.map_values(
                |p: PluginRecord| update_entry_line(p),
            )) by {
                assert(forall|k: int|
                    0 <= k < upd.len() ==> #[trigger] string_views(update_entries@)[k]
                        == update_entry_line(upd[k]));
            }
        }

        let overall_status: Status;
        if update_count > 0 {
            overall_status = Status::Warning;
            let mut header = u64_to_string(update_count as u64);
            header.append(" plugins have updates available:");
            details.push(header);
            let mut entries = update_entries;
            details.append(&mut entries);
            proof {
                assert(string_views(details@) =~= update_lines(all));
            }
        } else {
            overall_status = Status::Okay;
            details.push("All plugins are up to date.".to_owned());
            proof {
                assert(string_views(details@) =~= update_lines(all));
            }
        }
        // inactive plugins
        let mut inactive_count: usize = 0;
        let mut inactive_entries: Vec<String> = Vec::new();
        let ghost mut ina = Seq::<PluginRecord>::empty();
        let mut j: usize = 0;
        proof {
            assert(all.skip(0) =~= all);
            assert(inactive_plugins(all) =~= ina + inactive_plugins(all.skip(0)));
        }
        while j < n
            invariant
                n == all.len(),
                plugins@ == all,
                j <= n,
                inactive_plugins(all) =~= ina + inactive_plugins(all.skip(j as int)),
                inactive_count == ina.len(),
                inactive_count <= j,
                inactive_entries@.len() == inactive_count,
                forall|k: int|
                    0 <= k < inactive_count ==> inactive_entries@[k]@ == inactive_entry_line(
                        ina[k],
                    ),
            decreases n - j,
        {
            let ghost t = all.skip(j as int);
            proof {
                assert(t.drop_first() =~= all.skip(j as int + 1));
                assert(t[0] == all[j as int]);
            }
            let plugin = &plugins[j];
            if str_eq(plugin.status.as_str(), "inactive") {
                inactive_count = inactive_count + 1;
                let mut entry = " - ".to_owned();
                entry.append(plugin.name.as_str());
                inactive_entries.push(entry);
                proof {
                    let kept = ina + seq![all[j as int]];
                    assert(kept + inactive_plugins(all.skip(j as int + 1)) =~= ina + (seq![
                        all[j as int],
                    ] + inactive_plugins(all.skip(j as int + 1))));
                    assert(forall|k: int| 0 <= k < ina.len() ==> kept[k] == ina[k]);
                    ina = kept;
                }
            }
            j = j + 1;
        }
        proof {
            assert(all.skip(n as int) =~= Seq::<PluginRecord>::empty());
            assert(ina + Seq::<PluginRecord>::empty() =~= ina);
            assert(ina =~= inactive_plugins(all));
            assert(string_views(inactive_entries@) =~= ina.map_values(
                |p: PluginRecord| inactive_entry_line(p),
            )) by {
                assert(forall|k: int|
                    0 <= k < ina.len() ==> #[trigger] string_views(inactive_entries@)[k]
                        == inactive_entry_line(ina[k]));
            }
        }

        if inactive_count > 0 {
            let mut header = u64_to_string(inactive_count as u64);
            header.append(" inactive plugins found (consider removing checks):");
            details.push(header);
            let mut entries = inactive_entries;
            details.append(&mut entries);
        }
        proof {
            assert(string_views(details@) =~= update_lines(all) + inactive_lines(all));
        }

        let mut message = "Analyzed ".to_owned();
        message.append(u64_to_string(n as u64).as_str());
        message.append(" plugins.");
        DiagnosisReport {
            module: "Plugins".to_owned(),
            status: overall_status,
            message,
            details,
        }
    }

    /// The plugin probe's whole run on the listing the tool returned.
    pub fn run(&self, plugins: &Vec<PluginRecord>) -> (report: DiagnosisReport)
        ensures
            report@.module == "Plugins"@,
            report@.message == plugins_message(plugins@),
            report@.status == plugins_status(plugins@),
            report@.details == update_lines(plugins@) + inactive_lines(plugins@),
    {
        self.analyze_plugins(plugins)
    }
}

} // verus!
