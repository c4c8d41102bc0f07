//! Connection profiles: reading them from `nmcli` output, and the `nmcli` commands and status
//! messages that switching, defaulting and importing profiles use.

use vstd::prelude::*;
use vstd::hash_map::StringHashMap;
use vstd::string::*;

use crate::text::{
    contains, first_field, has_second_field, lines, lines_of, parse_i32, parsed_i32, second_field,
    split_fields, str_contains, texts,
};

verus! {

/// A NetworkManager connection profile of WireGuard or VPN type.
#[derive(Debug)]
pub struct VpnConfig {
    pub name: String,
    pub conn_type: String,
    pub is_active: bool,
    pub is_default: bool,
}

/// The content of a profile, as text.
pub struct VpnView {
    pub name: Seq<char>,
    pub conn_type: Seq<char>,
    pub is_active: bool,
    pub is_default: bool,
}

impl View for VpnConfig {
    type V = VpnView;

    open spec fn view(&self) -> VpnView {
        VpnView {
            name: self.name@,
            conn_type: self.conn_type@,
            is_active: self.is_active,
            is_default: self.is_default,
        }
    }
}

impl Clone for VpnConfig {
    fn clone(&self) -> (r: Self)
        ensures
            r == *self,
    {
        VpnConfig {
            name: self.name.clone(),
            conn_type: self.conn_type.clone(),
            is_active: self.is_active,
            is_default: self.is_default,
        }
    }
}

/// The contents of a sequence of profiles.
pub open spec fn vpn_views(s: Seq<VpnConfig>) -> Seq<VpnView> {
    s.map_values(|v: VpnConfig| v@)
}

/// The public address and location that an address lookup reports.
#[derive(Debug)]
pub struct IpInfo {
    pub ip: String,
    pub city: String,
    pub country: String,
    pub org: String,
}

impl Clone for IpInfo {
    fn clone(&self) -> (r: Self)
        ensures
            r == *self,
    {
        IpInfo {
            ip: self.ip.clone(),
            city: self.city.clone(),
            country: self.country.clone(),
            org: self.org.clone(),
        }
    }
}

/// The priorities that `NAME:AUTOCONNECT-PRIORITY` lines give, by name: each line that has a
/// second field which parses as an `i32` sets its name's priority, a later line overriding an
/// earlier one.
pub open spec fn priority_map(ls: Seq<Seq<char>>) -> Map<Seq<char>, i32>
    decreases ls.len(),
{
    if ls.len() == 0 {
        Map::empty()
    } else {
        let l = ls.last();
        let rest = priority_map(ls.drop_last());
        if has_second_field(l) && parsed_i32(second_field(l)) is Some {
            rest.insert(first_field(l), parsed_i32(second_field(l))->0)
        } else {
            rest
        }
    }
}

/// The priority of a profile: the one the map gives its name, or 0 when it gives none.
pub open spec fn priority_of(priorities: Map<Seq<char>, i32>, name: Seq<char>) -> i32 {
    if priorities.contains_key(name) {
        priorities[name]
    } else {
        0
    }
}

/// A connection type that the manager shows: one that mentions `wireguard` or `vpn`.
pub open spec fn is_vpn_type(t: Seq<char>) -> bool {
    contains(t, "wireguard"@) || contains(t, "vpn"@)
}

/// The profiles of `NAME:TYPE` lines, in order: one for each line with a second field of a VPN
/// type; it is active when its name is one of the active lines, and the default when its
/// priority is at least 100.
pub open spec fn listed_vpns(
    all: Seq<Seq<char>>,
    active: Seq<Seq<char>>,
    priorities: Map<Seq<char>, i32>,
) -> Seq<VpnView>
    decreases all.len(),
{
    if all.len() == 0 {
        seq![]
    } else {
        let l = all.last();
        let rest = listed_vpns(all.drop_last(), active, priorities);
        if has_second_field(l) && is_vpn_type(second_field(l)) {
            rest.push(
                VpnView {
                    name: first_field(l),
                    conn_type: second_field(l),
                    is_active: active.contains(first_field(l)),
                    is_default: priority_of(priorities, first_field(l)) >= 100,
                },
            )
        } else {
            rest
        }
    }
}

/// The profiles that three `nmcli -t` listings describe: the names of the active connections,
/// `NAME:AUTOCONNECT-PRIORITY` lines, and `NAME:TYPE` lines.
pub open spec fn vpn_list(active: Seq<char>, priorities: Seq<char>, all: Seq<char>) -> Seq<VpnView> {
    listed_vpns(lines(all), lines(active), priority_map(lines(priorities)))
}

/// The priorities of `NAME:AUTOCONNECT-PRIORITY` lines, by name.
fn priority_table(ls: &Vec<String>) -> (r: StringHashMap<i32>)
    ensures
        r@ == priority_map(texts(ls@)),
{
    let mut out: StringHashMap<i32> = StringHashMap::new();
    let n = ls.len();
    for i in 0..n
        invariant
            n == ls.len(),
            out@ == priority_map(texts(ls@).take(i as int)),
    {
        proof {
            assert(texts(ls@).take(i + 1).drop_last() =~= texts(ls@).take(i as int));
            assert(texts(ls@).take(i + 1).last() == ls@[i as int]@);
        }
        if let Some((name, value)) = split_fields(ls[i].as_str()) {
            if let Some(p) = parse_i32(value.as_str()) {
                out.insert(name, p);
            }
        }
    }
    proof {
        assert(texts(ls@).take(n as int) =~= texts(ls@));
    }
    out
}

/// The priority of `name` in the table, 0 when it has none.
fn priority_lookup(priorities: &StringHashMap<i32>, name: &String) -> (p: i32)
    ensures
        p == priority_of(priorities@, name@),
{
    match priorities.get(name.as_str()) {
        Some(p) => *p,
        None => 0,
    }
}

fn has_line(ls: &Vec<String>, name: &String) -> (b: bool)
    ensures
        b == texts(ls@).contains(name@),
{
    let n = ls.len();
    for i in 0..n
        invariant
            n == ls.len(),
            forall|j: int| 0 <= j < i ==> texts(ls@)[j] != name@,
    {
        if ls[i] == *name {
            proof {
                assert(texts(ls@)[i as int] == name@);
            }
            return true;
        }
    }
    false
}

/// The connection type mentions `wireguard` or `vpn`.
pub fn is_vpn_conn_type(t: &str) -> (b: bool)
    ensures
        b == is_vpn_type(t@),
{
    str_contains(t, "wireguard") || str_contains(t, "vpn")
}

/// The WireGuard and VPN profiles that three `nmcli -t` listings describe: `active` lists the
/// names of the active connections, `priorities` holds `NAME:AUTOCONNECT-PRIORITY` lines and
/// `all` holds `NAME:TYPE` lines.
pub fn parse_vpn_list(active: &str, priorities: &str, all: &str) -> (r: Vec<VpnConfig>)
    ensures
        vpn_views(r@) == vpn_list(active@, priorities@, all@),
{
    let active_names = lines_of(active);
    let prio_lines = lines_of(priorities);
    let entries = priority_table(&prio_lines);
    let all_lines = lines_of(all);
    let ghost act = lines(active@);
    let ghost ent = priority_map(lines(priorities@));
    let mut vpns: Vec<VpnConfig> = Vec::new();
    let n = all_lines.len();
    for i in 0..n
        invariant
            n == all_lines.len(),
            texts(active_names@) == act,
            entries@ == ent,
            vpn_views(vpns@) == listed_vpns(texts(all_lines@).take(i as int), act, ent),
    {
        proof {
            assert(texts(all_lines@).take(i + 1).drop_last() =~= texts(all_lines@).take(i as int));
            assert(texts(all_lines@).take(i + 1).last() == all_lines@[i as int]@);
        }
        if let Some((name, conn_type)) = split_fields(all_lines[i].as_str()) {
            if is_vpn_conn_type(conn_type.as_str()) {
                let is_active = has_line(&active_names, &name);
                let prio = priority_lookup(&entries, &name);
                let ghost before = vpns@;
                let vpn = VpnConfig { name, conn_type, is_active, is_default: prio >= 100 };
                let ghost added = vpn@;
                vpns.push(vpn);
                proof {
                    assert(vpn_views(vpns@) =~= vpn_views(before).push(added));
                }
            }
        }
    }
    proof {
        assert(texts(all_lines@).take(n as int) =~= texts(all_lines@));
    }
    vpns
}

/// Three texts joined into one string.
fn join3(a: &str, b: &str, c: &str) -> (r: String)
    ensures
        r@ == a@ + b@ + c@,
{
    let mut r = a.to_owned();
    r.append(b);
    r.append(c);
    r
}

/// The strings of an argument list.
fn owned_args(parts: &[&str]) -> (r: Vec<String>)
    ensures
        texts(r@) == parts@.map_values(|p: &str| p@),
{
    let mut r: Vec<String> = Vec::new();
    let n = parts.len();
    for i in 0..n
        invariant
            n == parts@.len(),
            texts(r@) == parts@.take(i as int).map_values(|p: &str| p@),
    {
        let ghost before = r@;
        r.push(parts[i].to_owned());
        proof {
            assert(texts(r@) =~= texts(before).push(parts@[i as int]@));
            assert(parts@.take(i + 1).map_values(|p: &str| p@) =~= parts@.take(i as int).map_values(
                |p: &str| p@,
            ).push(parts@[i as int]@));
        }
    }
    proof {
        assert(parts@.take(n as int) =~= parts@);
    }
    r
}

/// The `nmcli connection` action that switches a profile: `down` when it is active, `up` otherwise.
pub open spec fn toggle_word(active: bool) -> Seq<char> {
    if active {
        "down"@
    } else {
        "up"@
    }
}

/// The action that switches the profile over.
pub fn toggle_action(vpn: &VpnConfig) -> (r: &'static str)
    ensures
        r@ == toggle_word(vpn.is_active),
{
    if vpn.is_active {
        "down"
    } else {
        "up"
    }
}

/// The `nmcli` arguments that switch the profile over.
pub fn toggle_args(vpn: &VpnConfig) -> (r: Vec<String>)
    ensures
        texts(r@) == seq!["connection"@, toggle_word(vpn.is_active), vpn.name@],
{
    let action = toggle_action(vpn);
    let r = owned_args(&["connection", action, vpn.name.as_str()]);
    proof {
        assert(texts(r@) =~= seq!["connection"@, toggle_word(vpn.is_active), vpn.name@]);
    }
    r
}

/// The status line while a profile is switched over.
pub fn toggling_message(vpn: &VpnConfig) -> (r: String)
    ensures
        r@ == "Toggling "@ + vpn.name@ + " "@ + toggle_word(vpn.is_active) + "..."@,
{
    let mut r = join3("Toggling ", vpn.name.as_str(), " ");
    r.append(toggle_action(vpn));
    r.append("...");
    r
}

/// The status line once a profile was switched over.
pub fn toggled_message(vpn: &VpnConfig) -> (r: String)
    ensures
        r@ == "Successfully toggled "@ + vpn.name@,
{
    let r = join3("Successfully toggled ", vpn.name.as_str(), "");
    proof {
        reveal_strlit("");
        assert(r@ =~= "Successfully toggled "@ + vpn.name@);
    }
    r
}

/// The `nmcli` arguments that set a profile's autoconnect flag and priority: `yes` and 100 for
/// the default profile, `no` and 0 for any other.
pub open spec fn modify_args(name: Seq<char>, make_default: bool) -> Seq<Seq<char>> {
    seq![
        "connection"@,
        "modify"@,
        name,
        "connection.autoconnect"@,
        if make_default { "yes"@ } else { "no"@ },
        "connection.autoconnect-priority"@,
        if make_default { "100"@ } else { "0"@ },
    ]
}

/// The `nmcli` commands that make `target` the default profile: one for each profile of `all`,
/// in order, which makes it the default exactly when its name is the target's.
pub fn default_profile_commands(target: &VpnConfig, all: &Vec<VpnConfig>) -> (r: Vec<Vec<String>>)
    ensures
        r@.len() == all@.len(),
        forall|i: int|
            0 <= i < all@.len() ==> texts(#[trigger] r@[i]@) == modify_args(
                all@[i].name@,
                all@[i].name@ == target.name@,
            ),
{
    let mut r: Vec<Vec<String>> = Vec::new();
    let n = all.len();
    for i in 0..n
        invariant
            n == all@.len(),
            r@.len() == i,
            forall|j: int|
                0 <= j < i ==> texts(#[trigger] r@[j]@) == modify_args(
                    all@[j].name@,
                    all@[j].name@ == target.name@,
                ),
    {
        let name = all[i].name.as_str();
        let make_default = all[i].name == target.name;
        let args = if make_default {
            owned_args(
                &[
                    "connection",
                    "modify",
                    name,
                    "connection.autoconnect",
                    "yes",
                    "connection.autoconnect-priority",
                    "100",
                ],
            )
        } else {
            owned_args(
                &[
                    "connection",
                    "modify",
                    name,
                    "connection.autoconnect",
                    "no",
                    "connection.autoconnect-priority",
                    "0",
                ],
            )
        };
        proof {
            assert(texts(args@) =~= modify_args(all@[i as int].name@, make_default));
        }
        r.push(args);
    }
    r
}

/// The status line while a profile is made the default.
pub fn setting_default_message(target: &VpnConfig) -> (r: String)
    ensures
        r@ == "Setting "@ + target.name@ + " as default..."@,
{
    join3("Setting ", target.name.as_str(), " as default...")
}

/// The status line once a profile was made the default.
pub fn default_set_message(target: &VpnConfig) -> (r: String)
    ensures
        r@ == "Default VPN set to "@ + target.name@,
{
    let r = join3("Default VPN set to ", target.name.as_str(), "");
    proof {
        reveal_strlit("");
        assert(r@ =~= "Default VPN set to "@ + target.name@);
    }
    r
}

/// The `nmcli` arguments that import a WireGuard configuration file.
pub fn import_args(path: &str) -> (r: Vec<String>)
    ensures
        texts(r@) == seq!["connection"@, "import"@, "type"@, "wireguard"@, "file"@, path@],
{
    let r = owned_args(&["connection", "import", "type", "wireguard", "file", path]);
    proof {
        assert(texts(r@) =~= seq!["connection"@, "import"@, "type"@, "wireguard"@, "file"@, path@]);
    }
    r
}

/// The status line while a file is imported.
pub fn importing_message(path: &str) -> (r: String)
    ensures
        r@ == "Importing "@ + path@ + "..."@,
{
    join3("Importing ", path, "...")
}

/// How an import command ended.
pub enum ImportOutcome {
    /// The command ran and reported success.
    Imported,
    /// The command ran and failed; the text is what it wrote to its error stream.
    Failed(String),
    /// The command could not be run; the text describes why.
    NotRun(String),
}

/// The status line once an import ended.
pub open spec fn import_message_text(path: Seq<char>, outcome: ImportOutcome) -> Seq<char> {
    match outcome {
        ImportOutcome::Imported => "Successfully imported "@ + path,
        ImportOutcome::Failed(e) => "Import failed: "@ + e@,
        ImportOutcome::NotRun(e) => "Execution error: "@ + e@,
    }
}

/// The status line once an import ended.
pub fn import_message(path: &str, outcome: &ImportOutcome) -> (r: String)
    ensures
        r@ == import_message_text(path@, *outcome),
{
    let r = match outcome {
        ImportOutcome::Imported => join3("Successfully imported ", path, ""),
        ImportOutcome::Failed(e) => join3("Import failed: ", e.as_str(), ""),
        ImportOutcome::NotRun(e) => join3("Execution error: ", e.as_str(), ""),
    };
    proof {
        reveal_strlit("");
        assert(r@ =~= import_message_text(path@, *outcome));
    }
    r
}

/// The profile list is read again after an import only when the import succeeded.
pub fn import_refreshes(outcome: &ImportOutcome) -> (b: bool)
    ensures
        b == (*outcome is Imported),
{
    match outcome {
        ImportOutcome::Imported => true,
        _ => false,
    }
}

proof fn lemma_listed_active(all: Seq<Seq<char>>, active: Seq<Seq<char>>, priorities: Map<Seq<char>, i32>)
    ensures
        forall|k: int|
            0 <= k < listed_vpns(all, active, priorities).len() ==> (#[trigger] listed_vpns(
                all,
                active,
                priorities,
            )[k]).is_active == (exists|j: int|
                0 <= j < active.len() && active[j] == listed_vpns(all, active, priorities)[k].name),
    decreases all.len(),
{
    if all.len() > 0 {
        let r = listed_vpns(all, active, priorities);
        let rest = listed_vpns(all.drop_last(), active, priorities);
        lemma_listed_active(all.drop_last(), active, priorities);
        assert forall|k: int| 0 <= k < r.len() implies (#[trigger] r[k]).is_active == (exists|j: int|
            0 <= j < active.len() && active[j] == r[k].name) by {
            if k < rest.len() {
                assert(r[k] == rest[k]);
            }
        }
    }
}

/// Law: a listed profile is active exactly when its name is one of the lines of the
/// active-connections listing, at any position.
pub proof fn lemma_active_flag_from_active_listing(active: Seq<char>, priorities: Seq<char>, all: Seq<char>)
    ensures
        forall|k: int|
            0 <= k < vpn_list(active, priorities, all).len() ==> (#[trigger] vpn_list(
                active,
                priorities,
                all,
            )[k]).is_active == (exists|j: int|
                0 <= j < lines(active).len() && lines(active)[j] == vpn_list(
                    active,
                    priorities,
                    all,
                )[k].name),
{
    lemma_listed_active(lines(all), lines(active), priority_map(lines(priorities)));
}

/// The line gives `name` a priority: it has a second field that parses as an `i32`, after the
/// name as its first field.
pub open spec fn sets_priority(l: Seq<char>, name: Seq<char>) -> bool {
    has_second_field(l) && parsed_i32(second_field(l)) is Some && first_field(l) == name
}

/// The line of `ls` at `j` is the last one that gives `name` a priority.
pub open spec fn last_setter(ls: Seq<Seq<char>>, name: Seq<char>, j: int) -> bool {
    &&& 0 <= j < ls.len()
    &&& sets_priority(ls[j], name)
    &&& forall|k: int| j < k < ls.len() ==> !sets_priority(#[trigger] ls[k], name)
}

/// Law: a name that no line gives a priority has none in the table, and one that some line
/// does has the priority of the last such line.
pub proof fn lemma_priority_from_last_line(ls: Seq<Seq<char>>, name: Seq<char>)
    ensures
        (forall|j: int| 0 <= j < ls.len() ==> !sets_priority(#[trigger] ls[j], name))
            ==> !priority_map(ls).contains_key(name),
        forall|j: int|
            #[trigger] last_setter(ls, name, j) ==> priority_map(ls).contains_key(name)
                && priority_map(ls)[name] == parsed_i32(second_field(ls[j]))->0,
    decreases ls.len(),
{
    if ls.len() > 0 {
        let init = ls.drop_last();
        lemma_priority_from_last_line(init, name);
        let n = ls.len() - 1;
        if forall|j: int| 0 <= j < ls.len() ==> !sets_priority(#[trigger] ls[j], name) {
            assert forall|j: int| 0 <= j < init.len() implies !sets_priority(#[trigger] init[j], name) by {
                assert(init[j] == ls[j]);
            }
            assert(!sets_priority(ls[n], name));
        }
        assert forall|j: int| #[trigger] last_setter(ls, name, j) implies priority_map(ls).contains_key(name)
            && priority_map(ls)[name] == parsed_i32(second_field(ls[j]))->0 by {
            if j < n {
                assert(!sets_priority(ls[n], name));
                assert forall|k: int| j < k < init.len() implies !sets_priority(#[trigger] init[k], name) by {
                    assert(init[k] == ls[k]);
                }
                assert(init[j] == ls[j]);
                assert(last_setter(init, name, j));
            }
        }
    }
}

proof fn lemma_listed_fields(all: Seq<Seq<char>>, active: Seq<Seq<char>>, priorities: Map<Seq<char>, i32>)
    ensures
        forall|k: int|
            0 <= k < listed_vpns(all, active, priorities).len() ==> {
                let v = #[trigger] listed_vpns(all, active, priorities)[k];
                &&& v.is_default == (priority_of(priorities, v.name) >= 100)
                &&& exists|i: int|
                    0 <= i < all.len() && has_second_field(all[i]) && first_field(all[i]) == v.name
                        && second_field(all[i]) == v.conn_type && is_vpn_type(v.conn_type)
            },
    decreases all.len(),
{
    if all.len() > 0 {
        let init = all.drop_last();
        let r = listed_vpns(all, active, priorities);
        let rest = listed_vpns(init, active, priorities);
        lemma_listed_fields(init, active, priorities);
        assert forall|k: int| 0 <= k < r.len() implies {
            let v = #[trigger] r[k];
            &&& v.is_default == (priority_of(priorities, v.name) >= 100)
            &&& exists|i: int|
                0 <= i < all.len() && has_second_field(all[i]) && first_field(all[i]) == v.name
                    && second_field(all[i]) == v.conn_type && is_vpn_type(v.conn_type)
        } by {
            if k < rest.len() {
                assert(r[k] == rest[k]);
                let v = rest[k];
                let i = choose|i: int|
                    0 <= i < init.len() && has_second_field(init[i]) && first_field(init[i])
                        == v.name && second_field(init[i]) == v.conn_type && is_vpn_type(v.conn_type);
                assert(all[i] == init[i]);
            } else {
                assert(all[all.len() - 1] == all.last());
            }
        }
    }
}

/// Law: every listed profile comes from a line of the `NAME:TYPE` listing whose type is a VPN
/// type, and it is the default exactly when the last `NAME:AUTOCONNECT-PRIORITY` line that
/// gives its name a priority gives at least 100 (no such line: not the default).
pub proof fn lemma_listed_profile_fields(active: Seq<char>, priorities: Seq<char>, all: Seq<char>)
    ensures
        forall|k: int|
            0 <= k < vpn_list(active, priorities, all).len() ==> {
                let v = #[trigger] vpn_list(active, priorities, all)[k];
                &&& exists|i: int|
                    0 <= i < lines(all).len() && has_second_field(lines(all)[i]) && first_field(
                        lines(all)[i],
                    ) == v.name && second_field(lines(all)[i]) == v.conn_type && is_vpn_type(
                        v.conn_type,
                    )
                &&& v.is_default == (exists|j: int|
                    last_setter(lines(priorities), v.name, j) && parsed_i32(
                        second_field(lines(priorities)[j]),
                    )->0 >= 100)
            },
{
    let ls = lines(priorities);
    let r = vpn_list(active, priorities, all);
    lemma_listed_fields(lines(all), lines(active), priority_map(ls));
    assert forall|k: int| 0 <= k < r.len() implies (#[trigger] r[k]).is_default == (exists|j: int|
        last_setter(ls, r[k].name, j) && parsed_i32(second_field(ls[j]))->0 >= 100) by {
        let name = r[k].name;
        lemma_priority_from_last_line(ls, name);
        if exists|j: int| 0 <= j < ls.len() && sets_priority(#[trigger] ls[j], name) {
            let j0 = choose|j: int| 0 <= j < ls.len() && sets_priority(#[trigger] ls[j], name);
            let j = lemma_last_setter_exists(ls, name, j0);
            assert(last_setter(ls, name, j));
            assert forall|j2: int| #[trigger] last_setter(ls, name, j2) implies j2 == j by {
                if j2 < j {
                    assert(sets_priority(ls[j], name));
                } else if j < j2 {
                    assert(sets_priority(ls[j2], name));
                }
            }
        } else {
            assert forall|j: int| 0 <= j < ls.len() implies !sets_priority(#[trigger] ls[j], name) by {}
            assert forall|j: int| !(#[trigger] last_setter(ls, name, j)) by {}
        }
    }
}

proof fn lemma_last_setter_exists(ls: Seq<Seq<char>>, name: Seq<char>, j0: int) -> (j: int)
    requires
        0 <= j0 < ls.len(),
        sets_priority(ls[j0], name),
    ensures
        last_setter(ls, name, j),
    decreases ls.len() - j0,
{
    if forall|k: int| j0 < k < ls.len() ==> !sets_priority(#[trigger] ls[k], name) {
        j0
    } else {
        let k = choose|k: int| j0 < k < ls.len() && sets_priority(#[trigger] ls[k], name);
        lemma_last_setter_exists(ls, name, k)
    }
}

} // verus!
