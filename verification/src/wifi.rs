//! Wireless networking: scan-output parsing, station status parsing, and
//! rendering of the supplicant connection profile.
//!
//! The surrounding process runs the wireless tooling and hands the raw
//! stdout text in; everything that interprets that text lives here.

use vstd::prelude::*;

use crate::error::Error;
use crate::strutil::{
    find_sub, spec_find, spec_join_spaces, spec_split_char, spec_split_spaces, spec_starts_with,
    split_char, split_spaces, str_starts_with,
};

verus! {

/// One access point from the scanning utility's verbose output.
#[derive(Debug, Clone, PartialEq, Eq)]
pub struct Wifi {
    pub mac: String,
    pub ssid: String,
    pub channel: String,
    pub signal_level: String,
    pub security: String,
}

/// Mathematical model of a [`Wifi`].
pub struct WifiModel {
    pub mac: Seq<char>,
    pub ssid: Seq<char>,
    pub channel: Seq<char>,
    pub signal_level: Seq<char>,
    pub security: Seq<char>,
}

impl View for Wifi {
    type V = WifiModel;

    open spec fn view(&self) -> WifiModel {
        WifiModel {
            mac: self.mac@,
            ssid: self.ssid@,
            channel: self.channel@,
            signal_level: self.signal_level@,
            security: self.security@,
        }
    }
}

/// One row of the station tool's tabular scan listing.
#[derive(Debug, Clone, PartialEq, Eq)]
pub struct ScanResult {
    pub bssid: String,
    pub frequency: String,
    pub signal_level: String,
    pub flags: String,
    pub ssid: String,
}

/// Mathematical model of a [`ScanResult`].
pub struct ScanResultModel {
    pub bssid: Seq<char>,
    pub frequency: Seq<char>,
    pub signal_level: Seq<char>,
    pub flags: Seq<char>,
    pub ssid: Seq<char>,
}

impl View for ScanResult {
    type V = ScanResultModel;

    open spec fn view(&self) -> ScanResultModel {
        ScanResultModel {
            bssid: self.bssid@,
            frequency: self.frequency@,
            signal_level: self.signal_level@,
            flags: self.flags@,
            ssid: self.ssid@,
        }
    }
}

/// The station status as reported to clients.
#[derive(Debug, Clone, PartialEq, Eq)]
pub struct NetworkStatusResponse {
    pub ssid: String,
    pub status: String,
    pub ip_address: String,
}

/// Mathematical model of a [`NetworkStatusResponse`].
pub struct NetworkStatusModel {
    pub ssid: Seq<char>,
    pub status: Seq<char>,
    pub ip_address: Seq<char>,
}

impl View for NetworkStatusResponse {
    type V = NetworkStatusModel;

    open spec fn view(&self) -> NetworkStatusModel {
        NetworkStatusModel {
            ssid: self.ssid@,
            status: self.status@,
            ip_address: self.ip_address@,
        }
    }
}

/// Credentials for joining a network; `psk` is absent for open networks.
#[derive(Debug, Clone, PartialEq, Eq)]
pub struct WifiCredentials {
    pub ssid: String,
    pub psk: Option<String>,
}

/// Mathematical model of a [`WifiCredentials`].
pub struct WifiCredentialsModel {
    pub ssid: Seq<char>,
    pub psk: Option<Seq<char>>,
}

impl View for WifiCredentials {
    type V = WifiCredentialsModel;

    open spec fn view(&self) -> WifiCredentialsModel {
        WifiCredentialsModel {
            ssid: self.ssid@,
            psk: match self.psk {
                Some(ref p) => Some(p@),
                None => None,
            },
        }
    }
}

/// The value `extract_value` returns: when `ps` is a proper prefix of
/// `line`, the text from the end of that prefix up to the first
/// occurrence of `pe` (or to the end of the line when no end pattern is
/// given).  No value exists when the prefix does not match, when the
/// end pattern is absent from the line, or when its first occurrence
/// lies inside the prefix.
pub open spec fn spec_extract_value(
    line: Seq<char>,
    ps: Seq<char>,
    pe: Option<Seq<char>>,
) -> Option<Seq<char>> {
    if ps.len() < line.len() && line.subrange(0, ps.len() as int) == ps {
        match pe {
            Some(e) => match spec_find(line, e) {
                Some(f) => if f >= ps.len() {
                    Some(line.subrange(ps.len() as int, f))
                } else {
                    None
                },
                None => None,
            },
            None => Some(line.subrange(ps.len() as int, line.len() as int)),
        }
    } else {
        None
    }
}

/// Extract the text following the prefix `pattern_start`, up to
/// `pattern_end` where one is given.
pub fn extract_value(line: &str, pattern_start: &str, pattern_end: Option<&str>) -> (r: Result<
    String,
    Error,
>)
    ensures
        ({
            let pe = match pattern_end {
                Some(e) => Some(e@),
                None => None::<Seq<char>>,
            };
            match r {
                Ok(s) => spec_extract_value(line@, pattern_start@, pe) == Some(s@),
                Err(err) => spec_extract_value(line@, pattern_start@, pe) is None
                    && err is NoValue,
            }
        }),
{
    let start = pattern_start.unicode_len();
    let n = line.unicode_len();
    if start < n && str_starts_with(line, pattern_start) {
        match pattern_end {
            Some(e) => match find_sub(line, e) {
                Some(f) => {
                    if f >= start {
                        proof {
                            crate::strutil::lemma_spec_find_bound(line@, e@);
                        }
                        Ok(line.substring_char(start, f).to_owned())
                    } else {
                        Err(Error::NoValue)
                    }
                },
                None => Err(Error::NoValue),
            },
            None => Ok(line.substring_char(start, n).to_owned()),
        }
    } else {
        Err(Error::NoValue)
    }
}

/// The piece of the interface listing that names the first interface:
/// the text after the first interface marker, cut at the next marker
/// and at the end of its line.  A listing without a marker yields its
/// own first line.
pub open spec fn spec_parse_iw_dev(s: Seq<char>) -> Seq<char> {
    let sep = "\tInterface "@;
    let piece = match spec_find(s, sep) {
        None => s,
        Some(f) => {
            let rest = s.skip(f + sep.len() as int);
            match spec_find(rest, sep) {
                Some(g) => rest.take(g),
                None => rest,
            }
        },
    };
    match spec_find(piece, "\n"@) {
        Some(k) => piece.take(k),
        None => piece,
    }
}

/// Pick the interface name out of the device listing.
pub fn parse_iw_dev(interfaces: &str) -> (r: Result<String, Error>)
    ensures
        r matches Ok(s) && s@ == spec_parse_iw_dev(interfaces@),
{
    let sep = "\tInterface ";
    let n = interfaces.unicode_len();
    let piece: String = match find_sub(interfaces, sep) {
        None => interfaces.to_owned(),
        Some(f) => {
            proof {
                crate::strutil::lemma_spec_find_bound(interfaces@, sep@);
            }
            let sl = sep.unicode_len();
            let rest = interfaces.substring_char(f + sl, n);
            match find_sub(rest, sep) {
                Some(g) => {
                    proof {
                        crate::strutil::lemma_spec_find_bound(rest@, sep@);
                    }
                    let cut = rest.substring_char(0, g);
                    proof {
                        assert(cut@ =~= rest@.take(g as int));
                    }
                    cut.to_owned()
                },
                None => rest.to_owned(),
            }
        },
    };
    match find_sub(piece.as_str(), "\n") {
        Some(k) => {
            proof {
                crate::strutil::lemma_spec_find_bound(piece@, "\n"@);
            }
            let cut = piece.as_str().substring_char(0, k);
            proof {
                assert(cut@ =~= piece@.take(k as int));
            }
            Ok(cut.to_owned())
        },
        None => Ok(piece),
    }
}

/// The accumulator the verbose-scan parse starts from: every field
/// empty.
pub open spec fn spec_empty_wifi() -> WifiModel {
    WifiModel {
        mac: Seq::empty(),
        ssid: Seq::empty(),
        channel: Seq::empty(),
        signal_level: Seq::empty(),
        security: Seq::empty(),
    }
}

/// What one line of the verbose scan output contributes to the record
/// under construction.
pub open spec fn spec_scan_step(w: WifiModel, line: Seq<char>) -> WifiModel {
    match spec_extract_value(line, "BSS "@, Some("("@)) {
        Some(v) => WifiModel {
            mac: v,
            ssid: w.ssid,
            channel: w.channel,
            signal_level: w.signal_level,
            security: w.security,
        },
        None => match spec_extract_value(line, "\tsignal: "@, Some(" dBm"@)) {
            Some(v) => WifiModel {
                mac: w.mac,
                ssid: w.ssid,
                channel: w.channel,
                signal_level: v,
                security: w.security,
            },
            None => match spec_extract_value(line, "\tDS Parameter set: channel "@, None) {
                Some(v) => WifiModel {
                    mac: w.mac,
                    ssid: w.ssid,
                    channel: v,
                    signal_level: w.signal_level,
                    security: w.security,
                },
                None => match spec_extract_value(line, "\tSSID: "@, None) {
                    Some(v) => WifiModel {
                        mac: w.mac,
                        ssid: v,
                        channel: w.channel,
                        signal_level: w.signal_level,
                        security: w.security,
                    },
                    None => w,
                },
            },
        },
    }
}

/// A record is emitted once its four scanned fields are filled.
pub open spec fn spec_wifi_complete(w: WifiModel) -> bool {
    w.mac.len() > 0 && w.signal_level.len() > 0 && w.channel.len() > 0 && w.ssid.len() > 0
}

/// Fold the scan lines, emitting a record (and starting a fresh one)
/// whenever it completes.
pub open spec fn spec_scan_fold(
    lines: Seq<Seq<char>>,
    acc: Seq<WifiModel>,
    cur: WifiModel,
) -> Seq<WifiModel>
    decreases lines.len(),
{
    if lines.len() == 0 {
        acc
    } else {
        let w = spec_scan_step(cur, lines[0]);
        if spec_wifi_complete(w) {
            spec_scan_fold(lines.drop_first(), acc.push(w), spec_empty_wifi())
        } else {
            spec_scan_fold(lines.drop_first(), acc, w)
        }
    }
}

/// The access-point records in a verbose scan output.
pub open spec fn spec_parse_iw_dev_scan(s: Seq<char>) -> Seq<WifiModel> {
    spec_scan_fold(spec_split_char(s, '\n'), Seq::empty(), spec_empty_wifi())
}

/// Element-wise model of an access-point list.
pub open spec fn wifis_model(v: Seq<Wifi>) -> Seq<WifiModel> {
    v.map(|i: int, w: Wifi| w@)
}

fn empty_wifi() -> (w: Wifi)
    ensures
        w@ == spec_empty_wifi(),
{
    Wifi {
        mac: String::new(),
        ssid: String::new(),
        channel: String::new(),
        signal_level: String::new(),
        security: String::new(),
    }
}

fn scan_step(w: &mut Wifi, line: &str)
    ensures
        final(w)@ == spec_scan_step(old(w)@, line@),
{
    match extract_value(line, "BSS ", Some("(")) {
        Ok(v) => {
            w.mac = v;
        },
        Err(_) => match extract_value(line, "\tsignal: ", Some(" dBm")) {
            Ok(v) => {
                w.signal_level = v;
            },
            Err(_) => match extract_value(line, "\tDS Parameter set: channel ", None) {
                Ok(v) => {
                    w.channel = v;
                },
                Err(_) => match extract_value(line, "\tSSID: ", None) {
                    Ok(v) => {
                        w.ssid = v;
                    },
                    Err(_) => {},
                },
            },
        },
    }
}

/// Parse the verbose scan output into access-point records: fields are
/// collected line by line and a record is emitted as soon as its MAC,
/// signal, channel and SSID are all present.
pub fn parse_iw_dev_scan(network_list: &str) -> (r: Result<Vec<Wifi>, Error>)
    ensures
        r matches Ok(v) && wifis_model(v@) == spec_parse_iw_dev_scan(network_list@),
{
    let lines = split_char(network_list, '\n');
    let ghost lm = crate::strutil::strings_model(lines@);
    let mut wifis: Vec<Wifi> = Vec::new();
    let mut wifi = empty_wifi();
    let n = lines.len();
    let mut i: usize = 0;
    proof {
        assert(lm.skip(0) =~= lm);
        assert(wifis_model(wifis@) =~= Seq::<WifiModel>::empty());
    }
    while i < n
        invariant
            n == lines.len(),
            0 <= i <= n,
            lm == crate::strutil::strings_model(lines@),
            spec_scan_fold(lm.skip(i as int), wifis_model(wifis@), wifi@) == spec_scan_fold(
                lm,
                Seq::empty(),
                spec_empty_wifi(),
            ),
        decreases n - i,
    {
        let ghost prev_wifis = wifis@;
        let ghost prev_cur = wifi@;
        scan_step(&mut wifi, lines[i].as_str());
        proof {
            assert(lm.skip(i as int)[0] == lm[i as int]);
            assert(lm[i as int] == lines@[i as int]@);
            assert(lm.skip(i as int).drop_first() =~= lm.skip(i + 1));
        }
        let complete = !wifi.mac.as_str().is_empty() && !wifi.signal_level.as_str().is_empty()
            && !wifi.channel.as_str().is_empty() && !wifi.ssid.as_str().is_empty();
        if complete {
            let done = wifi;
            wifi = empty_wifi();
            wifis.push(done);
            proof {
                assert(wifis_model(wifis@) =~= wifis_model(prev_wifis).push(
                    spec_scan_step(prev_cur, lm[i as int]),
                ));
            }
        }
        i += 1;
    }
    proof {
        assert(lm.skip(n as int) =~= Seq::<Seq<char>>::empty());
    }
    Ok(wifis)
}

/// The value of a `key=value` line: the text between the first and
/// second equals signs, or to the end of the line; empty when the line
/// has no equals sign.
pub open spec fn spec_eq_value(line: Seq<char>) -> Seq<char> {
    let p = spec_split_char(line, '=');
    if p.len() >= 2 {
        p[1]
    } else {
        Seq::empty()
    }
}

/// What one line of the station status output contributes.
pub open spec fn spec_status_step(st: NetworkStatusModel, line: Seq<char>) -> NetworkStatusModel {
    if spec_starts_with(line, "ssid="@) {
        NetworkStatusModel { ssid: spec_eq_value(line), status: st.status, ip_address: st.ip_address }
    } else if spec_starts_with(line, "wpa_state="@) {
        NetworkStatusModel { ssid: st.ssid, status: spec_eq_value(line), ip_address: st.ip_address }
    } else if spec_starts_with(line, "ip_address="@) {
        NetworkStatusModel { ssid: st.ssid, status: st.status, ip_address: spec_eq_value(line) }
    } else {
        st
    }
}

pub open spec fn spec_status_fold(
    lines: Seq<Seq<char>>,
    st: NetworkStatusModel,
) -> NetworkStatusModel
    decreases lines.len(),
{
    if lines.len() == 0 {
        st
    } else {
        spec_status_fold(lines.drop_first(), spec_status_step(st, lines[0]))
    }
}

/// The station status parsed from the status tool's `key=value` output;
/// a later line for the same key wins.
pub open spec fn spec_parse_wpa_status(s: Seq<char>) -> NetworkStatusModel {
    spec_status_fold(
        spec_split_char(s, '\n'),
        NetworkStatusModel { ssid: Seq::empty(), status: Seq::empty(), ip_address: Seq::empty() },
    )
}

fn eq_value(line: &str) -> (r: String)
    ensures
        r@ == spec_eq_value(line@),
{
    let p = split_char(line, '=');
    if p.len() >= 2 {
        p[1].clone()
    } else {
        String::new()
    }
}

/// Parse the station status output into the reported triple.
pub fn parse_wpa_status(text: &str) -> (st: NetworkStatusResponse)
    ensures
        st@ == spec_parse_wpa_status(text@),
{
    let lines = split_char(text, '\n');
    let ghost lm = crate::strutil::strings_model(lines@);
    let mut st = NetworkStatusResponse {
        ssid: String::new(),
        status: String::new(),
        ip_address: String::new(),
    };
    let n = lines.len();
    let mut i: usize = 0;
    proof {
        assert(lm.skip(0) =~= lm);
    }
    while i < n
        invariant
            n == lines.len(),
            0 <= i <= n,
            lm == crate::strutil::strings_model(lines@),
            spec_status_fold(lm.skip(i as int), st@) == spec_parse_wpa_status(text@),
        decreases n - i,
    {
        let line = lines[i].as_str();
        proof {
            assert(lm.skip(i as int)[0] == lm[i as int]);
            assert(lm[i as int] == lines@[i as int]@);
            assert(lm.skip(i as int).drop_first() =~= lm.skip(i + 1));
        }
        if str_starts_with(line, "ssid=") {
            st.ssid = eq_value(line);
        } else if str_starts_with(line, "wpa_state=") {
            st.status = eq_value(line);
        } else if str_starts_with(line, "ip_address=") {
            st.ip_address = eq_value(line);
        }
        i += 1;
    }
    proof {
        assert(lm.skip(n as int) =~= Seq::<Seq<char>>::empty());
    }
    st
}

/// One row of the tabular scan listing, where the line has at least the
/// five expected columns; trailing columns are rejoined into the SSID.
pub open spec fn spec_scan_row(line: Seq<char>) -> Option<ScanResultModel> {
    let p = spec_split_spaces(line);
    if p.len() >= 5 {
        Some(ScanResultModel {
            bssid: p[0],
            frequency: p[1],
            signal_level: p[2],
            flags: p[3],
            ssid: spec_join_spaces(p.skip(4)),
        })
    } else {
        None
    }
}

pub open spec fn spec_rows_fold(
    lines: Seq<Seq<char>>,
    acc: Seq<ScanResultModel>,
) -> Seq<ScanResultModel>
    decreases lines.len(),
{
    if lines.len() == 0 {
        acc
    } else {
        match spec_scan_row(lines[0]) {
            Some(row) => spec_rows_fold(lines.drop_first(), acc.push(row)),
            None => spec_rows_fold(lines.drop_first(), acc),
        }
    }
}

/// The rows of the tabular scan listing: the header line is skipped,
/// and short or malformed lines are dropped.
pub open spec fn spec_parse_scan_results(s: Seq<char>) -> Seq<ScanResultModel> {
    spec_rows_fold(spec_split_char(s, '\n').drop_first(), Seq::empty())
}

/// Parse the tabular scan listing into result rows.
pub fn parse_scan_results(text: &str) -> (rows: Vec<ScanResult>)
    ensures
        crate::protocol::scan_results_model(rows@) == spec_parse_scan_results(text@),
{
    let lines = split_char(text, '\n');
    let ghost lm = crate::strutil::strings_model(lines@);
    let mut rows: Vec<ScanResult> = Vec::new();
    let n = lines.len();
    let mut i: usize = 1;
    proof {
        crate::strutil::lemma_split_char_len(text@, '\n');
        assert(lm.skip(1) =~= lm.drop_first());
        assert(crate::protocol::scan_results_model(rows@) =~= Seq::<ScanResultModel>::empty());
    }
    while i < n
        invariant
            n == lines.len(),
            n >= 1,
            1 <= i <= n,
            lm == crate::strutil::strings_model(lines@),
            spec_rows_fold(lm.skip(i as int), crate::protocol::scan_results_model(rows@))
                == spec_parse_scan_results(text@),
        decreases n - i,
    {
        let ghost prev = rows@;
        proof {
            assert(lm.skip(i as int)[0] == lm[i as int]);
            assert(lm[i as int] == lines@[i as int]@);
            assert(lm.skip(i as int).drop_first() =~= lm.skip(i + 1));
        }
        let parts = split_spaces(lines[i].as_str());
        if parts.len() >= 5 {
            let ghost pm = crate::strutil::strings_model(parts@);
            let row = ScanResult {
                bssid: parts[0].clone(),
                frequency: parts[1].clone(),
                signal_level: parts[2].clone(),
                flags: parts[3].clone(),
                ssid: crate::strutil::join_spaces(&parts, 4),
            };
            rows.push(row);
            proof {
                assert(crate::protocol::scan_results_model(rows@) =~= crate::protocol
                    ::scan_results_model(prev).push(spec_scan_row(lm[i as int])->0));
            }
        }
        i += 1;
    }
    proof {
        assert(lm.skip(n as int) =~= Seq::<Seq<char>>::empty());
    }
    rows
}

/// The minimal supplicant connection profile for one network: a PSK
/// block when a key is given, an explicit open-network block
/// (`key_mgmt=NONE`) when the key is empty.
pub open spec fn spec_wpa_profile(ssid: Seq<char>, psk: Seq<char>) -> Seq<char> {
    if psk.len() > 0 {
        "network={\n\tssid=\""@ + ssid + "\"\n\tpsk=\""@ + psk + "\"\n}"@
    } else {
        "network={\n\tssid=\""@ + ssid + "\"\n\tkey_mgmt=NONE\n}"@
    }
}

/// The tabular scan rows as one notification.  A failed or missing
/// scan reports an empty row list rather than an error.
pub fn scan_results_message(rows: Vec<ScanResult>) -> (m: crate::protocol::WebSocketMessage)
    ensures
        m@ == (crate::protocol::MessageModel {
            t: Some("SCAN_RESULTS"@),
            op: crate::protocol::OP_CONTROL,
            d: Some(crate::protocol::PayloadModel::ScanResults(
                crate::protocol::scan_results_model(rows@),
            )),
        }),
{
    crate::protocol::WebSocketMessage::notification(
        "SCAN_RESULTS",
        crate::protocol::OP_CONTROL,
        crate::protocol::Payload::ScanResults(rows),
    )
}

/// The station-status notification.
pub fn network_status_message(st: NetworkStatusResponse) -> (m:
    crate::protocol::WebSocketMessage)
    ensures
        m@ == (crate::protocol::MessageModel {
            t: Some("NETWORK_STATUS"@),
            op: crate::protocol::OP_CONTROL,
            d: Some(crate::protocol::PayloadModel::NetworkStatus(st@)),
        }),
{
    crate::protocol::WebSocketMessage::notification(
        "NETWORK_STATUS",
        crate::protocol::OP_CONTROL,
        crate::protocol::Payload::NetworkStatus(st),
    )
}

/// The degraded status reported when no station status can be read:
/// the connection counts as deactivated, never as an error.
pub fn degraded_network_status() -> (st: NetworkStatusResponse)
    ensures
        st@.ssid.len() == 0,
        st@.status == "DEACTIVATED"@,
        st@.ip_address.len() == 0,
{
    NetworkStatusResponse {
        ssid: String::new(),
        status: String::from_str("DEACTIVATED"),
        ip_address: String::new(),
    }
}

/// One access point found by the verbose scanner, as a notification.
pub fn wifi_network_found_message(w: Wifi) -> (m: crate::protocol::WebSocketMessage)
    ensures
        m@ == (crate::protocol::MessageModel {
            t: Some("WIFI_NETWORK_FOUND"@),
            op: crate::protocol::OP_CONTROL,
            d: Some(crate::protocol::PayloadModel::WifiNetwork(w@)),
        }),
{
    crate::protocol::WebSocketMessage::notification(
        "WIFI_NETWORK_FOUND",
        crate::protocol::OP_CONTROL,
        crate::protocol::Payload::WifiNetwork(w),
    )
}

/// Render the supplicant profile text for `ssid` and `psk`; an empty
/// `psk` yields the open-network block.
pub fn wpa_supplicant_profile(ssid: &str, psk: &str) -> (r: String)
    ensures
        r@ == spec_wpa_profile(ssid@, psk@),
{
    let mut s = String::from_str("network={\n\tssid=\"");
    s.append(ssid);
    if psk.unicode_len() > 0 {
        s.append("\"\n\tpsk=\"");
        s.append(psk);
        s.append("\"\n}");
    } else {
        s.append("\"\n\tkey_mgmt=NONE\n}");
    }
    s
}

} // verus!
