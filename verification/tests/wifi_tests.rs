use kiosk_hub::error::Error;
use kiosk_hub::protocol::Payload;
use kiosk_hub::wifi::{
    degraded_network_status, extract_value, network_status_message, parse_iw_dev,
    parse_iw_dev_scan, parse_scan_results, parse_wpa_status, scan_results_message,
    wifi_network_found_message, wpa_supplicant_profile, Wifi,
};

#[test]
fn extract_value_with_end_pattern() {
    let line = "BSS aa:bb:cc:dd:ee:ff(on wlan0)";
    assert_eq!(
        extract_value(line, "BSS ", Some("(")),
        Ok("aa:bb:cc:dd:ee:ff".to_string())
    );
}

#[test]
fn extract_value_to_end_of_line() {
    assert_eq!(
        extract_value("\tSSID: cafe lounge", "\tSSID: ", None),
        Ok("cafe lounge".to_string())
    );
}

#[test]
fn extract_value_rejects_non_matching_lines() {
    assert_eq!(extract_value("\tfreq: 2412", "\tSSID: ", None), Err(Error::NoValue));
    // The end pattern must occur in the line.
    assert_eq!(extract_value("BSS aa:bb", "BSS ", Some("(")), Err(Error::NoValue));
    // The prefix must be a proper prefix.
    assert_eq!(extract_value("BSS ", "BSS ", None), Err(Error::NoValue));
}

#[test]
fn iw_dev_yields_the_first_interface_name() {
    let listing = "phy#0\n\tInterface wlan0\n\t\tifindex 3\n\t\ttype managed\n";
    assert_eq!(parse_iw_dev(listing), Ok("wlan0".to_string()));
}

#[test]
fn iw_dev_with_two_interfaces_takes_the_first() {
    let listing = "phy#0\n\tInterface wlan0\n\t\ttype managed\n\tInterface wlan1\n";
    assert_eq!(parse_iw_dev(listing), Ok("wlan0".to_string()));
}

#[test]
fn iw_scan_collects_complete_records() {
    let out = "BSS aa:aa:aa:aa:aa:aa(on wlan0)\n\
               \tsignal: -45.00 dBm\n\
               \tSSID: homenet\n\
               \tDS Parameter set: channel 6\n\
               BSS bb:bb:bb:bb:bb:bb(on wlan0)\n\
               \tsignal: -70.00 dBm\n\
               \tSSID: cafe lounge\n\
               \tDS Parameter set: channel 11\n";
    let wifis = parse_iw_dev_scan(out).unwrap();
    assert_eq!(
        wifis,
        vec![
            Wifi {
                mac: "aa:aa:aa:aa:aa:aa".to_string(),
                ssid: "homenet".to_string(),
                channel: "6".to_string(),
                signal_level: "-45.00".to_string(),
                security: String::new(),
            },
            Wifi {
                mac: "bb:bb:bb:bb:bb:bb".to_string(),
                ssid: "cafe lounge".to_string(),
                channel: "11".to_string(),
                signal_level: "-70.00".to_string(),
                security: String::new(),
            },
        ]
    );
}

#[test]
fn iw_scan_drops_incomplete_records() {
    // No channel line ever appears: nothing completes.
    let out = "BSS aa:aa:aa:aa:aa:aa(on wlan0)\n\tsignal: -45.00 dBm\n\tSSID: homenet\n";
    assert_eq!(parse_iw_dev_scan(out), Ok(vec![]));
}

#[test]
fn wpa_status_reads_the_key_value_lines() {
    let out = "bssid=aa:bb:cc:dd:ee:ff\nssid=homenet\nwpa_state=COMPLETED\nip_address=192.168.0.17\n";
    let st = parse_wpa_status(out);
    assert_eq!(st.ssid, "homenet");
    assert_eq!(st.status, "COMPLETED");
    assert_eq!(st.ip_address, "192.168.0.17");
}

#[test]
fn wpa_status_missing_keys_stay_empty() {
    let st = parse_wpa_status("wpa_state=SCANNING\n");
    assert_eq!(st.ssid, "");
    assert_eq!(st.status, "SCANNING");
    assert_eq!(st.ip_address, "");
}

#[test]
fn scan_results_parse_the_table() {
    let out = "bssid / frequency / signal level / flags / ssid\n\
               aa:bb:cc:dd:ee:ff\t2412\t-44\t[WPA2-PSK-CCMP][ESS]\thomenet\n\
               11:22:33:44:55:66\t5180\t-60\t[ESS]\tcafe lounge wifi\n\
               short line\n";
    let rows = parse_scan_results(out);
    assert_eq!(rows.len(), 2);
    assert_eq!(rows[0].bssid, "aa:bb:cc:dd:ee:ff");
    assert_eq!(rows[0].frequency, "2412");
    assert_eq!(rows[0].signal_level, "-44");
    assert_eq!(rows[0].flags, "[WPA2-PSK-CCMP][ESS]");
    assert_eq!(rows[0].ssid, "homenet");
    // Trailing columns are rejoined into the SSID.
    assert_eq!(rows[1].ssid, "cafe lounge wifi");
}

#[test]
fn scan_results_skip_the_header_even_if_wide() {
    let out = "bssid frequency signal flags ssid extra\naa 1 2 [ESS] net\n";
    let rows = parse_scan_results(out);
    assert_eq!(rows.len(), 1);
    assert_eq!(rows[0].bssid, "aa");
}

#[test]
fn psk_profile_has_a_psk_block() {
    assert_eq!(
        wpa_supplicant_profile("home", "secret123"),
        "network={\n\tssid=\"home\"\n\tpsk=\"secret123\"\n}"
    );
}

#[test]
fn empty_psk_yields_an_open_network_block() {
    let profile = wpa_supplicant_profile("opennet", "");
    assert_eq!(profile, "network={\n\tssid=\"opennet\"\n\tkey_mgmt=NONE\n}");
    assert!(!profile.contains("psk"));
    assert!(profile.contains("key_mgmt=NONE"));
}

#[test]
fn network_notification_shapes() {
    let st = degraded_network_status();
    assert_eq!(st.status, "DEACTIVATED");
    assert_eq!(st.ssid, "");
    assert_eq!(st.ip_address, "");
    let m = network_status_message(st.clone());
    assert_eq!(m.t.as_deref(), Some("NETWORK_STATUS"));
    assert_eq!(m.op, 0);
    assert_eq!(m.d, Some(Payload::NetworkStatus(st)));

    let m = scan_results_message(vec![]);
    assert_eq!(m.t.as_deref(), Some("SCAN_RESULTS"));
    assert_eq!(m.d, Some(Payload::ScanResults(vec![])));

    let w = Wifi {
        mac: "aa".to_string(),
        ssid: "n".to_string(),
        channel: "1".to_string(),
        signal_level: "-1".to_string(),
        security: "wpa".to_string(),
    };
    let m = wifi_network_found_message(w.clone());
    assert_eq!(m.t.as_deref(), Some("WIFI_NETWORK_FOUND"));
    assert_eq!(m.d, Some(Payload::WifiNetwork(w)));
}
