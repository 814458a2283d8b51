//! Shop-floor (MES) adapter configuration at boot: the adapters an
//! environment enables, and their one-shot, idempotent migration into the
//! persisted adapter list.

use vstd::prelude::*;
use crate::text::{
    eq_ignore_ascii_case, eq_ignore_ascii_case_spec, is_blank, is_blank_spec,
    parse_unsigned, parse_unsigned_spec, str_eq,
};

verus! {

pub const ENV_BARCODE_ENABLED: &'static str = "ABERP_BARCODE_SCANNER_ENABLED";
pub const ENV_BARCODE_ID: &'static str = "ABERP_BARCODE_SCANNER_ID";
pub const ENV_BARCODE_HOST: &'static str = "ABERP_BARCODE_SCANNER_HOST";
pub const ENV_BARCODE_PORT: &'static str = "ABERP_BARCODE_SCANNER_PORT";
pub const ENV_ZEBRA_ENABLED: &'static str = "ABERP_ZEBRA_ENABLED";
pub const ENV_ZEBRA_PRINTER_ID: &'static str = "ABERP_ZEBRA_PRINTER_ID";
pub const ENV_ZEBRA_FRIENDLY_NAME: &'static str = "ABERP_ZEBRA_FRIENDLY_NAME";
pub const ENV_ZEBRA_HOST: &'static str = "ABERP_ZEBRA_HOST";
pub const ENV_ZEBRA_PORT: &'static str = "ABERP_ZEBRA_PORT";
pub const ENV_MTCONNECT_ENABLED: &'static str = "ABERP_MTCONNECT_ENABLED";
pub const ENV_MTCONNECT_MACHINE_ID: &'static str = "ABERP_MTCONNECT_MACHINE_ID";
pub const ENV_MTCONNECT_FRIENDLY_NAME: &'static str = "ABERP_MTCONNECT_FRIENDLY_NAME";
pub const ENV_MTCONNECT_HOST: &'static str = "ABERP_MTCONNECT_HOST";
pub const ENV_MTCONNECT_PORT: &'static str = "ABERP_MTCONNECT_PORT";
pub const ENV_MTCONNECT_DEVICE_NAME: &'static str = "ABERP_MTCONNECT_DEVICE_NAME";
pub const ENV_UR_RTDE_ENABLED: &'static str = "ABERP_UR_RTDE_ENABLED";
pub const ENV_UR_RTDE_ROBOT_ID: &'static str = "ABERP_UR_RTDE_ROBOT_ID";
pub const ENV_UR_RTDE_FRIENDLY_NAME: &'static str = "ABERP_UR_RTDE_FRIENDLY_NAME";
pub const ENV_UR_RTDE_HOST: &'static str = "ABERP_UR_RTDE_HOST";
pub const ENV_UR_RTDE_PORT: &'static str = "ABERP_UR_RTDE_PORT";
pub const ENV_UR_RTDE_MODEL: &'static str = "ABERP_UR_RTDE_MODEL";

pub const DEFAULT_HOST: &'static str = "127.0.0.1";
pub const DEFAULT_SCANNER_ID: &'static str = "barcode-scanner-default";
pub const DEFAULT_ZEBRA_PRINTER_ID: &'static str = "label-printer-default";
pub const DEFAULT_ZEBRA_FRIENDLY_NAME: &'static str = "Label Printer";
pub const DEFAULT_MTCONNECT_MACHINE_ID: &'static str = "cnc-default";
pub const DEFAULT_MTCONNECT_FRIENDLY_NAME: &'static str = "CNC Machine";
pub const DEFAULT_MTCONNECT_DEVICE_NAME: &'static str = "default";
pub const DEFAULT_UR_RTDE_ROBOT_ID: &'static str = "robot-default";
pub const DEFAULT_UR_RTDE_FRIENDLY_NAME: &'static str = "UR Robot";
pub const DEFAULT_UR_RTDE_MODEL: &'static str = "UR";

/// Kind of shop-floor adapter.
#[derive(Clone, Copy, Debug, PartialEq, Eq, Structural, Hash)]
pub enum AdapterKind {
    BarcodeScanner,
    LabelPrinter,
    Cnc,
    Robot,
}

/// One persisted adapter configuration row.
#[derive(Clone, Debug, PartialEq, Eq)]
pub struct AdapterConfigEntry {
    pub kind: AdapterKind,
    pub adapter_id: String,
    pub friendly_name: String,
    pub host: String,
    pub port: u16,
    pub device_name: Option<String>,
    pub model: Option<String>,
}

/// Mathematical value of an adapter row.
pub struct AdapterEntryView {
    pub kind: AdapterKind,
    pub adapter_id: Seq<char>,
    pub friendly_name: Seq<char>,
    pub host: Seq<char>,
    pub port: u16,
    pub device_name: Option<Seq<char>>,
    pub model: Option<Seq<char>>,
}

pub open spec fn opt_seq(o: Option<String>) -> Option<Seq<char>> {
    match o {
        Some(s) => Some(s@),
        None => None,
    }
}

impl View for AdapterConfigEntry {
    type V = AdapterEntryView;

    open spec fn view(&self) -> AdapterEntryView {
        AdapterEntryView {
            kind: self.kind,
            adapter_id: self.adapter_id@,
            friendly_name: self.friendly_name@,
            host: self.host@,
            port: self.port,
            device_name: opt_seq(self.device_name),
            model: opt_seq(self.model),
        }
    }
}

pub open spec fn entries_view(v: Seq<AdapterConfigEntry>) -> Seq<AdapterEntryView> {
    v.map_values(|e: AdapterConfigEntry| e@)
}

/// Default ports of each adapter kind.
#[derive(Clone, Copy, Debug, PartialEq, Eq, Structural)]
pub struct AdapterDefaultPorts {
    pub barcode: u16,
    pub zebra: u16,
    pub mtconnect: u16,
    pub ur_rtde: u16,
}

/// The adapter-related environment values (`None` when unset).
#[derive(Clone, Debug, PartialEq, Eq, Default)]
pub struct AdapterEnv {
    pub barcode_enabled: Option<String>,
    pub barcode_id: Option<String>,
    pub barcode_host: Option<String>,
    pub barcode_port: Option<String>,
    pub zebra_enabled: Option<String>,
    pub zebra_printer_id: Option<String>,
    pub zebra_friendly_name: Option<String>,
    pub zebra_host: Option<String>,
    pub zebra_port: Option<String>,
    pub mtconnect_enabled: Option<String>,
    pub mtconnect_machine_id: Option<String>,
    pub mtconnect_friendly_name: Option<String>,
    pub mtconnect_host: Option<String>,
    pub mtconnect_port: Option<String>,
    pub mtconnect_device_name: Option<String>,
    pub ur_rtde_enabled: Option<String>,
    pub ur_rtde_robot_id: Option<String>,
    pub ur_rtde_friendly_name: Option<String>,
    pub ur_rtde_host: Option<String>,
    pub ur_rtde_port: Option<String>,
    pub ur_rtde_model: Option<String>,
}

// ── Environment rules ────────────────────────────────────────────────

pub open spec fn enabled_spec(v: Option<String>) -> bool {
    match v {
        Some(s) => eq_ignore_ascii_case_spec(s@, "true"@),
        None => false,
    }
}

pub open spec fn or_default(v: Option<String>, d: Seq<char>) -> Seq<char> {
    match v {
        Some(s) => s@,
        None => d,
    }
}

pub open spec fn port_spec(v: Option<String>, d: u16) -> Option<u16> {
    match v {
        None => Some(d),
        Some(s) => match parse_unsigned_spec(s@, u16::MAX as nat) {
            Some(n) => Some(n as u16),
            None => None,
        },
    }
}

pub open spec fn empty_text(ctx: Seq<char>, key: Seq<char>) -> Seq<char> {
    ctx + key + " is empty"@
}

pub open spec fn parse_text(ctx: Seq<char>, key: Seq<char>, value: Seq<char>) -> Seq<char> {
    ctx + "parse "@ + key + "="@ + value
}

pub open spec fn barcode_ctx() -> Seq<char> {
    "read barcode-scanner env config: "@
}

pub open spec fn zebra_ctx() -> Seq<char> {
    "read Zebra env config: "@
}

pub open spec fn mtconnect_ctx() -> Seq<char> {
    "read MTConnect env config: "@
}

pub open spec fn ur_rtde_ctx() -> Seq<char> {
    "read UR RTDE env config: "@
}

pub open spec fn barcode_spec(env: AdapterEnv, ports: AdapterDefaultPorts, host_is_ip: bool) -> Result<AdapterEntryView, Seq<char>> {
    let id = or_default(env.barcode_id, DEFAULT_SCANNER_ID@);
    let host = or_default(env.barcode_host, DEFAULT_HOST@);
    if is_blank_spec(id) {
        Err(empty_text(barcode_ctx(), ENV_BARCODE_ID@))
    } else if !host_is_ip {
        Err(parse_text(barcode_ctx(), ENV_BARCODE_HOST@, host))
    } else {
        match port_spec(env.barcode_port, ports.barcode) {
            None => Err(parse_text(barcode_ctx(), ENV_BARCODE_PORT@, env.barcode_port->0@)),
            Some(p) => Ok(
                AdapterEntryView {
                    kind: AdapterKind::BarcodeScanner,
                    adapter_id: id,
                    friendly_name: id,
                    host,
                    port: p,
                    device_name: None,
                    model: None,
                },
            ),
        }
    }
}

pub open spec fn zebra_spec(env: AdapterEnv, ports: AdapterDefaultPorts) -> Result<AdapterEntryView, Seq<char>> {
    let id = or_default(env.zebra_printer_id, DEFAULT_ZEBRA_PRINTER_ID@);
    let name = or_default(env.zebra_friendly_name, DEFAULT_ZEBRA_FRIENDLY_NAME@);
    let host = or_default(env.zebra_host, DEFAULT_HOST@);
    if is_blank_spec(id) {
        Err(empty_text(zebra_ctx(), ENV_ZEBRA_PRINTER_ID@))
    } else if is_blank_spec(host) {
        Err(empty_text(zebra_ctx(), ENV_ZEBRA_HOST@))
    } else {
        match port_spec(env.zebra_port, ports.zebra) {
            None => Err(parse_text(zebra_ctx(), ENV_ZEBRA_PORT@, env.zebra_port->0@)),
            Some(p) => Ok(
                AdapterEntryView {
                    kind: AdapterKind::LabelPrinter,
                    adapter_id: id,
                    friendly_name: name,
                    host,
                    port: p,
                    device_name: None,
                    model: None,
                },
            ),
        }
    }
}

pub open spec fn mtconnect_spec(env: AdapterEnv, ports: AdapterDefaultPorts) -> Result<AdapterEntryView, Seq<char>> {
    let id = or_default(env.mtconnect_machine_id, DEFAULT_MTCONNECT_MACHINE_ID@);
    let name = or_default(env.mtconnect_friendly_name, DEFAULT_MTCONNECT_FRIENDLY_NAME@);
    let host = or_default(env.mtconnect_host, DEFAULT_HOST@);
    let device = or_default(env.mtconnect_device_name, DEFAULT_MTCONNECT_DEVICE_NAME@);
    if is_blank_spec(id) {
        Err(empty_text(mtconnect_ctx(), ENV_MTCONNECT_MACHINE_ID@))
    } else if is_blank_spec(host) {
        Err(empty_text(mtconnect_ctx(), ENV_MTCONNECT_HOST@))
    } else {
        match port_spec(env.mtconnect_port, ports.mtconnect) {
            None => Err(parse_text(mtconnect_ctx(), ENV_MTCONNECT_PORT@, env.mtconnect_port->0@)),
            Some(p) => if is_blank_spec(device) {
                Err(empty_text(mtconnect_ctx(), ENV_MTCONNECT_DEVICE_NAME@))
            } else {
                Ok(
                    AdapterEntryView {
                        kind: AdapterKind::Cnc,
                        adapter_id: id,
                        friendly_name: name,
                        host,
                        port: p,
                        device_name: Some(device),
                        model: None,
                    },
                )
            },
        }
    }
}

pub open spec fn ur_rtde_spec(env: AdapterEnv, ports: AdapterDefaultPorts) -> Result<AdapterEntryView, Seq<char>> {
    let id = or_default(env.ur_rtde_robot_id, DEFAULT_UR_RTDE_ROBOT_ID@);
    let name = or_default(env.ur_rtde_friendly_name, DEFAULT_UR_RTDE_FRIENDLY_NAME@);
    let host = or_default(env.ur_rtde_host, DEFAULT_HOST@);
    let model = or_default(env.ur_rtde_model, DEFAULT_UR_RTDE_MODEL@);
    if is_blank_spec(id) {
        Err(empty_text(ur_rtde_ctx(), ENV_UR_RTDE_ROBOT_ID@))
    } else if is_blank_spec(host) {
        Err(empty_text(ur_rtde_ctx(), ENV_UR_RTDE_HOST@))
    } else {
        match port_spec(env.ur_rtde_port, ports.ur_rtde) {
            None => Err(parse_text(ur_rtde_ctx(), ENV_UR_RTDE_PORT@, env.ur_rtde_port->0@)),
            Some(p) => Ok(
                AdapterEntryView {
                    kind: AdapterKind::Robot,
                    adapter_id: id,
                    friendly_name: name,
                    host,
                    port: p,
                    device_name: None,
                    model: Some(model),
                },
            ),
        }
    }
}

/// Append the entry of an enabled adapter, stopping at the first failure.
pub open spec fn collect_step(
    acc: Result<Seq<AdapterEntryView>, Seq<char>>,
    enabled: bool,
    entry: Result<AdapterEntryView, Seq<char>>,
) -> Result<Seq<AdapterEntryView>, Seq<char>> {
    match acc {
        Err(e) => Err(e),
        Ok(s) => if !enabled {
            Ok(s)
        } else {
            match entry {
                Err(e) => Err(e),
                Ok(v) => Ok(s.push(v)),
            }
        },
    }
}

/// The entries the environment enables, in the order barcode scanner,
/// label printer, CNC, robot; the first misconfigured enabled adapter fails
/// the whole collection.
pub open spec fn env_entries_spec(env: AdapterEnv, ports: AdapterDefaultPorts, barcode_host_is_ip: bool) -> Result<Seq<AdapterEntryView>, Seq<char>> {
    let a = collect_step(
        Ok(Seq::empty()),
        enabled_spec(env.barcode_enabled),
        barcode_spec(env, ports, barcode_host_is_ip),
    );
    let b = collect_step(a, enabled_spec(env.zebra_enabled), zebra_spec(env, ports));
    let c = collect_step(b, enabled_spec(env.mtconnect_enabled), mtconnect_spec(env, ports));
    collect_step(c, enabled_spec(env.ur_rtde_enabled), ur_rtde_spec(env, ports))
}

/// `s.parse::<u16>()`: an optional `+` followed by ASCII digits, within
/// range.
fn parse_u16(s: &str) -> (r: Option<u16>)
    ensures
        r is Some <==> parse_unsigned_spec(s@, u16::MAX as nat) is Some,
        r is Some ==> r->0 as nat == parse_unsigned_spec(s@, u16::MAX as nat)->0,
{
    match parse_unsigned(s, u16::MAX as u64) {
        Some(v) => Some(v as u16),
        None => None,
    }
}

fn env_enabled(v: &Option<String>) -> (r: bool)
    ensures
        r == enabled_spec(*v),
{
    match v {
        Some(s) => eq_ignore_ascii_case(s.as_str(), "true"),
        None => false,
    }
}

fn value_or(v: &Option<String>, d: &str) -> (r: String)
    ensures
        r@ == or_default(*v, d@),
{
    match v {
        Some(s) => s.clone(),
        None => String::from_str(d),
    }
}

fn env_port(v: &Option<String>, d: u16) -> (r: Option<u16>)
    ensures
        r == port_spec(*v, d),
{
    match v {
        None => Some(d),
        Some(s) => parse_u16(s.as_str()),
    }
}

fn empty_message(ctx: &str, key: &str) -> (r: String)
    ensures
        r@ == empty_text(ctx@, key@),
{
    let mut m = String::from_str(ctx);
    m.append(key);
    m.append(" is empty");
    m
}

fn parse_message(ctx: &str, key: &str, value: &str) -> (r: String)
    ensures
        r@ == parse_text(ctx@, key@, value@),
{
    let mut m = String::from_str(ctx);
    m.append("parse ");
    m.append(key);
    m.append("=");
    m.append(value);
    m
}

pub open spec fn entry_result_view(r: Result<AdapterConfigEntry, String>) -> Result<AdapterEntryView, Seq<char>> {
    match r {
        Ok(e) => Ok(e@),
        Err(m) => Err(m@),
    }
}

fn read_barcode_entry(env: &AdapterEnv, ports: AdapterDefaultPorts, host_is_ip: bool) -> (r: Result<AdapterConfigEntry, String>)
    ensures
        entry_result_view(r) == barcode_spec(*env, ports, host_is_ip),
{
    let id = value_or(&env.barcode_id, DEFAULT_SCANNER_ID);
    if is_blank(id.as_str()) {
        return Err(empty_message("read barcode-scanner env config: ", ENV_BARCODE_ID));
    }
    let host = value_or(&env.barcode_host, DEFAULT_HOST);
    if !host_is_ip {
        return Err(parse_message("read barcode-scanner env config: ", ENV_BARCODE_HOST, host.as_str()));
    }
    let port = match env_port(&env.barcode_port, ports.barcode) {
        Some(p) => p,
        None => {
            let v = env.barcode_port.as_ref().unwrap();
            return Err(parse_message("read barcode-scanner env config: ", ENV_BARCODE_PORT, v.as_str()));
        },
    };
    Ok(
        AdapterConfigEntry {
            kind: AdapterKind::BarcodeScanner,
            friendly_name: id.clone(),
            adapter_id: id,
            host,
            port,
            device_name: None,
            model: None,
        },
    )
}

fn read_zebra_entry(env: &AdapterEnv, ports: AdapterDefaultPorts) -> (r: Result<AdapterConfigEntry, String>)
    ensures
        entry_result_view(r) == zebra_spec(*env, ports),
{
    let id = value_or(&env.zebra_printer_id, DEFAULT_ZEBRA_PRINTER_ID);
    if is_blank(id.as_str()) {
        return Err(empty_message("read Zebra env config: ", ENV_ZEBRA_PRINTER_ID));
    }
    let name = value_or(&env.zebra_friendly_name, DEFAULT_ZEBRA_FRIENDLY_NAME);
    let host = value_or(&env.zebra_host, DEFAULT_HOST);
    if is_blank(host.as_str()) {
        return Err(empty_message("read Zebra env config: ", ENV_ZEBRA_HOST));
    }
    let port = match env_port(&env.zebra_port, ports.zebra) {
        Some(p) => p,
        None => {
            let v = env.zebra_port.as_ref().unwrap();
            return Err(parse_message("read Zebra env config: ", ENV_ZEBRA_PORT, v.as_str()));
        },
    };
    Ok(
        AdapterConfigEntry {
            kind: AdapterKind::LabelPrinter,
            adapter_id: id,
            friendly_name: name,
            host,
            port,
            device_name: None,
            model: None,
        },
    )
}

fn read_mtconnect_entry(env: &AdapterEnv, ports: AdapterDefaultPorts) -> (r: Result<AdapterConfigEntry, String>)
    ensures
        entry_result_view(r) == mtconnect_spec(*env, ports),
{
    let id = value_or(&env.mtconnect_machine_id, DEFAULT_MTCONNECT_MACHINE_ID);
    if is_blank(id.as_str()) {
        return Err(empty_message("read MTConnect env config: ", ENV_MTCONNECT_MACHINE_ID));
    }
    let name = value_or(&env.mtconnect_friendly_name, DEFAULT_MTCONNECT_FRIENDLY_NAME);
    let host = value_or(&env.mtconnect_host, DEFAULT_HOST);
    if is_blank(host.as_str()) {
        return Err(empty_message("read MTConnect env config: ", ENV_MTCONNECT_HOST));
    }
    let port = match env_port(&env.mtconnect_port, ports.mtconnect) {
        Some(p) => p,
        None => {
            let v = env.mtconnect_port.as_ref().unwrap();
            return Err(parse_message("read MTConnect env config: ", ENV_MTCONNECT_PORT, v.as_str()));
        },
    };
    let device = value_or(&env.mtconnect_device_name, DEFAULT_MTCONNECT_DEVICE_NAME);
    if is_blank(device.as_str()) {
        return Err(empty_message("read MTConnect env config: ", ENV_MTCONNECT_DEVICE_NAME));
    }
    Ok(
        AdapterConfigEntry {
            kind: AdapterKind::Cnc,
            adapter_id: id,
            friendly_name: name,
            host,
            port,
            device_name: Some(device),
            model: None,
        },
    )
}

fn read_ur_rtde_entry(env: &AdapterEnv, ports: AdapterDefaultPorts) -> (r: Result<AdapterConfigEntry, String>)
    ensures
        entry_result_view(r) == ur_rtde_spec(*env, ports),
{
    let id = value_or(&env.ur_rtde_robot_id, DEFAULT_UR_RTDE_ROBOT_ID);
    if is_blank(id.as_str()) {
        return Err(empty_message("read UR RTDE env config: ", ENV_UR_RTDE_ROBOT_ID));
    }
    let name = value_or(&env.ur_rtde_friendly_name, DEFAULT_UR_RTDE_FRIENDLY_NAME);
    let host = value_or(&env.ur_rtde_host, DEFAULT_HOST);
    if is_blank(host.as_str()) {
        return Err(empty_message("read UR RTDE env config: ", ENV_UR_RTDE_HOST));
    }
    let port = match env_port(&env.ur_rtde_port, ports.ur_rtde) {
        Some(p) => p,
        None => {
            let v = env.ur_rtde_port.as_ref().unwrap();
            return Err(parse_message("read UR RTDE env config: ", ENV_UR_RTDE_PORT, v.as_str()));
        },
    };
    let model = value_or(&env.ur_rtde_model, DEFAULT_UR_RTDE_MODEL);
    Ok(
        AdapterConfigEntry {
            kind: AdapterKind::Robot,
            adapter_id: id,
            friendly_name: name,
            host,
            port,
            device_name: None,
            model: Some(model),
        },
    )
}

pub open spec fn entries_result_view(r: Result<Vec<AdapterConfigEntry>, String>) -> Result<Seq<AdapterEntryView>, Seq<char>> {
    match r {
        Ok(v) => Ok(entries_view(v@)),
        Err(m) => Err(m@),
    }
}

fn push_entry(out: &mut Vec<AdapterConfigEntry>, e: AdapterConfigEntry)
    ensures
        entries_view(final(out)@) == entries_view(old(out)@).push(e@),
{
    out.push(e);
    assert(entries_view(out@) =~= entries_view(old(out)@).push(e@));
}

/// The adapter entries the environment enables (an adapter is enabled when
/// its `*_ENABLED` value is `true` in any ASCII case). `barcode_host_is_ip`
/// tells whether the barcode scanner's host value (or the default host)
/// parses as an IP address.
pub fn env_adapter_entries(env: &AdapterEnv, ports: AdapterDefaultPorts, barcode_host_is_ip: bool) -> (r: Result<Vec<AdapterConfigEntry>, String>)
    ensures
        entries_result_view(r) == env_entries_spec(*env, ports, barcode_host_is_ip),
{
    let mut out: Vec<AdapterConfigEntry> = Vec::new();
    assert(entries_view(out@) =~= Seq::<AdapterEntryView>::empty());
    if env_enabled(&env.barcode_enabled) {
        match read_barcode_entry(env, ports, barcode_host_is_ip) {
            Ok(e) => push_entry(&mut out, e),
            Err(m) => {
                return Err(m);
            },
        }
    }
    if env_enabled(&env.zebra_enabled) {
        match read_zebra_entry(env, ports) {
            Ok(e) => push_entry(&mut out, e),
            Err(m) => {
                return Err(m);
            },
        }
    }
    if env_enabled(&env.mtconnect_enabled) {
        match read_mtconnect_entry(env, ports) {
            Ok(e) => push_entry(&mut out, e),
            Err(m) => {
                return Err(m);
            },
        }
    }
    if env_enabled(&env.ur_rtde_enabled) {
        match read_ur_rtde_entry(env, ports) {
            Ok(e) => push_entry(&mut out, e),
            Err(m) => {
                return Err(m);
            },
        }
    }
    Ok(out)
}

// ── Migration into the persisted list ────────────────────────────────

/// Some row of `s` carries the adapter id `id`.
pub open spec fn contains_id(s: Seq<AdapterEntryView>, id: Seq<char>) -> bool
    decreases s.len(),
{
    s.len() > 0 && (contains_id(s.drop_last(), id) || s.last().adapter_id == id)
}

/// The persisted list after migrating `envs` into `existing`: each env
/// adapter whose id is not yet present is appended, in order.
pub open spec fn merge_spec(existing: Seq<AdapterEntryView>, envs: Seq<AdapterEntryView>) -> Seq<AdapterEntryView>
    decreases envs.len(),
{
    if envs.len() == 0 {
        existing
    } else {
        let m = merge_spec(existing, envs.drop_last());
        if contains_id(m, envs.last().adapter_id) {
            m
        } else {
            m.push(envs.last())
        }
    }
}

fn has_adapter_id(entries: &Vec<AdapterConfigEntry>, id: &str) -> (r: bool)
    ensures
        r == contains_id(entries_view(entries@), id@),
{
    let mut found = false;
    let mut i: usize = 0;
    while i < entries.len()
        invariant
            i <= entries.len(),
            found == contains_id(entries_view(entries@.subrange(0, i as int)), id@),
        decreases entries.len() - i,
    {
        proof {
            let nxt = entries_view(entries@.subrange(0, (i + 1) as int));
            assert(nxt.drop_last() =~= entries_view(entries@.subrange(0, i as int)));
            assert(nxt.last() == entries@[i as int]@);
        }
        if str_eq(entries[i].adapter_id.as_str(), id) {
            found = true;
        }
        i = i + 1;
    }
    assert(entries@.subrange(0, entries.len() as int) =~= entries@);
    found
}

/// Migrate env-defined adapters into the persisted list: an adapter whose
/// id is already listed is left untouched, any other is appended. Returns
/// how many were added.
pub fn migrate_env_adapters_to_toml(entries: &mut Vec<AdapterConfigEntry>, env_entries: Vec<AdapterConfigEntry>) -> (added: usize)
    ensures
        entries_view(final(entries)@) == merge_spec(entries_view(old(entries)@), entries_view(env_entries@)),
        final(entries)@.len() == old(entries)@.len() + added,
{
    let ghost start = entries_view(entries@);
    let ghost start_len = entries@.len();
    let mut added: usize = 0;
    let mut i: usize = 0;
    let n = env_entries.len();
    while i < n
        invariant
            n == env_entries@.len(),
            i <= n,
            entries_view(entries@) == merge_spec(start, entries_view(env_entries@.subrange(0, i as int))),
            entries@.len() == start_len + added,
            added <= i,
        decreases n - i,
    {
        proof {
            let nxt = entries_view(env_entries@.subrange(0, (i + 1) as int));
            assert(nxt.drop_last() =~= entries_view(env_entries@.subrange(0, i as int)));
            assert(nxt.last() == env_entries@[i as int]@);
        }
        let present = has_adapter_id(entries, env_entries[i].adapter_id.as_str());
        if !present {
            let ghost before = entries_view(entries@);
            entries.push(AdapterConfigEntry {
                kind: env_entries[i].kind,
                adapter_id: env_entries[i].adapter_id.clone(),
                friendly_name: env_entries[i].friendly_name.clone(),
                host: env_entries[i].host.clone(),
                port: env_entries[i].port,
                device_name: clone_opt(&env_entries[i].device_name),
                model: clone_opt(&env_entries[i].model),
            });
            assert(entries_view(entries@) =~= before.push(env_entries@[i as int]@));
            added = added + 1;
        }
        i = i + 1;
    }
    assert(env_entries@.subrange(0, n as int) =~= env_entries@);
    added
}

fn clone_opt(o: &Option<String>) -> (r: Option<String>)
    ensures
        opt_seq(r) == opt_seq(*o),
{
    match o {
        Some(s) => Some(s.clone()),
        None => None,
    }
}

// ── Migration laws ───────────────────────────────────────────────────

proof fn lemma_contains_after_push(s: Seq<AdapterEntryView>, v: AdapterEntryView, id: Seq<char>)
    ensures
        contains_id(s.push(v), id) == (contains_id(s, id) || v.adapter_id == id),
{
    assert(s.push(v).drop_last() =~= s);
}

/// Migration keeps every existing row in place: the old list is a prefix
/// of the new one.
pub proof fn lemma_migration_preserves_existing(existing: Seq<AdapterEntryView>, envs: Seq<AdapterEntryView>)
    ensures
        merge_spec(existing, envs).len() >= existing.len(),
        merge_spec(existing, envs).subrange(0, existing.len() as int) == existing,
    decreases envs.len(),
{
    if envs.len() == 0 {
        assert(existing.subrange(0, existing.len() as int) =~= existing);
    } else {
        lemma_migration_preserves_existing(existing, envs.drop_last());
        let m = merge_spec(existing, envs.drop_last());
        if !contains_id(m, envs.last().adapter_id) {
            assert(m.push(envs.last()).subrange(0, existing.len() as int) =~= m.subrange(
                0,
                existing.len() as int,
            ));
        }
    }
}

proof fn lemma_merge_keeps_ids(existing: Seq<AdapterEntryView>, envs: Seq<AdapterEntryView>, id: Seq<char>)
    requires
        contains_id(existing, id),
    ensures
        contains_id(merge_spec(existing, envs), id),
    decreases envs.len(),
{
    if envs.len() > 0 {
        lemma_merge_keeps_ids(existing, envs.drop_last(), id);
        let m = merge_spec(existing, envs.drop_last());
        lemma_contains_after_push(m, envs.last(), id);
    }
}

proof fn lemma_merge_covers_envs(existing: Seq<AdapterEntryView>, envs: Seq<AdapterEntryView>, k: int)
    requires
        0 <= k < envs.len(),
    ensures
        contains_id(merge_spec(existing, envs), envs[k].adapter_id),
    decreases envs.len(),
{
    let m = merge_spec(existing, envs.drop_last());
    lemma_contains_after_push(m, envs.last(), envs[k].adapter_id);
    if k < envs.len() - 1 {
        lemma_merge_covers_envs(existing, envs.drop_last(), k);
        assert(envs.drop_last()[k] == envs[k]);
    }
}

proof fn lemma_merge_no_op(m: Seq<AdapterEntryView>, envs: Seq<AdapterEntryView>)
    requires
        forall|k: int| 0 <= k < envs.len() ==> contains_id(m, #[trigger] envs[k].adapter_id),
    ensures
        merge_spec(m, envs) == m,
    decreases envs.len(),
{
    if envs.len() > 0 {
        let t = envs.drop_last();
        assert forall|k: int| 0 <= k < t.len() implies contains_id(m, #[trigger] t[k].adapter_id) by {
            assert(t[k] == envs[k]);
        }
        lemma_merge_no_op(m, t);
        assert(contains_id(m, envs[envs.len() - 1].adapter_id));
    }
}

/// Migrating the same env adapters a second time changes nothing.
pub proof fn lemma_migration_idempotent(existing: Seq<AdapterEntryView>, envs: Seq<AdapterEntryView>)
    ensures
        merge_spec(merge_spec(existing, envs), envs) == merge_spec(existing, envs),
{
    let m = merge_spec(existing, envs);
    assert forall|k: int| 0 <= k < envs.len() implies contains_id(m, #[trigger] envs[k].adapter_id) by {
        lemma_merge_covers_envs(existing, envs, k);
    }
    lemma_merge_no_op(m, envs);
}

/// After migration every env adapter's id is listed.
pub proof fn lemma_migration_covers_env(existing: Seq<AdapterEntryView>, envs: Seq<AdapterEntryView>, k: int)
    requires
        0 <= k < envs.len(),
    ensures
        contains_id(merge_spec(existing, envs), envs[k].adapter_id),
{
    lemma_merge_covers_envs(existing, envs, k);
}

/// A robot the environment enables is listed last, and carries the model
/// the `ABERP_UR_RTDE_MODEL` variable names; the default model is used only
/// when that variable is unset.
pub proof fn lemma_robot_model_follows_env(env: AdapterEnv, ports: AdapterDefaultPorts, ip: bool)
    requires
        env_entries_spec(env, ports, ip) is Ok,
        enabled_spec(env.ur_rtde_enabled),
    ensures
        ({
            let s = env_entries_spec(env, ports, ip)->Ok_0;
            &&& s.len() > 0
            &&& s.last().kind == AdapterKind::Robot
            &&& (env.ur_rtde_model matches Some(m) ==> s.last().model == Some(m@))
            &&& (env.ur_rtde_model is None ==> s.last().model == Some(DEFAULT_UR_RTDE_MODEL@))
        }),
{
}

/// Entries only ever append: a collection that went through a step keeps
/// what it had.
proof fn lemma_collect_keeps_prefix(
    acc: Result<Seq<AdapterEntryView>, Seq<char>>,
    enabled: bool,
    entry: Result<AdapterEntryView, Seq<char>>,
)
    requires
        collect_step(acc, enabled, entry) is Ok,
    ensures
        acc is Ok,
        collect_step(acc, enabled, entry)->Ok_0.len() >= acc->Ok_0.len(),
        forall|k: int|
            0 <= k < acc->Ok_0.len() ==> #[trigger] collect_step(acc, enabled, entry)->Ok_0[k]
                == acc->Ok_0[k],
{
}

/// An enabled barcode scanner is listed first, on the port the
/// `ABERP_BARCODE_SCANNER_PORT` variable gives when it is set (an
/// unparseable value fails the collection), and on the default port only
/// when the variable is unset.
pub proof fn lemma_barcode_port_follows_env(env: AdapterEnv, ports: AdapterDefaultPorts, ip: bool)
    requires
        enabled_spec(env.barcode_enabled),
    ensures
        (env.barcode_port matches Some(p) && parse_unsigned_spec(p@, u16::MAX as nat) is None)
            ==> env_entries_spec(env, ports, ip) is Err,
        env_entries_spec(env, ports, ip) is Ok ==> ({
            let s = env_entries_spec(env, ports, ip)->Ok_0;
            &&& s.len() > 0
            &&& s[0].kind == AdapterKind::BarcodeScanner
            &&& (env.barcode_port matches Some(p) ==> s[0].port as nat == parse_unsigned_spec(
                p@,
                u16::MAX as nat,
            )->0)
            &&& (env.barcode_port is None ==> s[0].port == ports.barcode)
        }),
{
    let a = collect_step(
        Ok(Seq::empty()),
        enabled_spec(env.barcode_enabled),
        barcode_spec(env, ports, ip),
    );
    let b = collect_step(a, enabled_spec(env.zebra_enabled), zebra_spec(env, ports));
    let c = collect_step(b, enabled_spec(env.mtconnect_enabled), mtconnect_spec(env, ports));
    let d = collect_step(c, enabled_spec(env.ur_rtde_enabled), ur_rtde_spec(env, ports));
    assert(d == env_entries_spec(env, ports, ip));
    if d is Ok {
        lemma_collect_keeps_prefix(c, enabled_spec(env.ur_rtde_enabled), ur_rtde_spec(env, ports));
        lemma_collect_keeps_prefix(b, enabled_spec(env.mtconnect_enabled), mtconnect_spec(env, ports));
        lemma_collect_keeps_prefix(a, enabled_spec(env.zebra_enabled), zebra_spec(env, ports));
        assert(a->Ok_0.len() == 1);
        assert(d->Ok_0[0] == c->Ok_0[0]);
        assert(c->Ok_0[0] == b->Ok_0[0]);
        assert(b->Ok_0[0] == a->Ok_0[0]);
    }
}

} // verus!
