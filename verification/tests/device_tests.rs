use camctrl::device::{check_credentials, is_known_namespace, plan_services, ServiceEntry};
use camctrl::error::DeviceError;

fn entry(ns: &str, addr: &str) -> ServiceEntry {
    ServiceEntry { namespace: ns.to_string(), x_addr: addr.to_string() }
}

const DEV: &str = "http://10.0.0.5/onvif/device_service";

#[test]
fn credentials_given_together() {
    let r = check_credentials(Some("u".to_string()), Some("p".to_string()));
    assert_eq!(r.unwrap(), Some(("u".to_string(), "p".to_string())));
    assert_eq!(check_credentials(None, None).unwrap(), None);
}

#[test]
fn credentials_given_alone_are_refused() {
    for r in [
        check_credentials(Some("u".to_string()), None),
        check_credentials(None, Some("p".to_string())),
    ] {
        match r {
            Err(DeviceError::Unauthorized(msg)) => {
                assert_eq!(msg, "Username and password must be specified together")
            }
            other => panic!("unexpected {:?}", other),
        }
    }
}

#[test]
fn services_are_assigned_by_namespace() {
    let services = vec![
        entry("http://www.onvif.org/ver10/device/wsdl", DEV),
        entry("http://www.onvif.org/ver10/media/wsdl", "http://10.0.0.5/onvif/media"),
        entry("http://www.onvif.org/ver20/ptz/wsdl", "http://10.0.0.5/onvif/ptz"),
        entry("http://www.onvif.org/ver10/events/wsdl", "http://10.0.0.5/onvif/events"),
        entry("http://www.onvif.org/ver10/deviceIO/wsdl", "http://10.0.0.5/onvif/io"),
        entry("http://www.onvif.org/ver20/media/wsdl", "http://10.0.0.5/onvif/media2"),
        entry("http://www.onvif.org/ver20/imaging/wsdl", "http://10.0.0.5/onvif/imaging"),
        entry("http://www.onvif.org/ver20/analytics/wsdl", "http://10.0.0.5/onvif/analytics"),
        entry("http://example.com/unknown", "http://10.0.0.5/other"),
    ];
    let plan = plan_services(DEV, &services).unwrap();
    assert_eq!(plan.media.as_deref(), Some("http://10.0.0.5/onvif/media"));
    assert_eq!(plan.ptz.as_deref(), Some("http://10.0.0.5/onvif/ptz"));
    assert_eq!(plan.event.as_deref(), Some("http://10.0.0.5/onvif/events"));
    assert_eq!(plan.deviceio.as_deref(), Some("http://10.0.0.5/onvif/io"));
    assert_eq!(plan.media2.as_deref(), Some("http://10.0.0.5/onvif/media2"));
    assert_eq!(plan.imaging.as_deref(), Some("http://10.0.0.5/onvif/imaging"));
    assert_eq!(plan.analytics.as_deref(), Some("http://10.0.0.5/onvif/analytics"));
}

#[test]
fn no_services_gives_empty_plan() {
    let plan = plan_services(DEV, &Vec::new()).unwrap();
    assert!(plan.media.is_none() && plan.event.is_none() && plan.ptz.is_none());
}

#[test]
fn later_entry_replaces_earlier() {
    let services = vec![
        entry("http://www.onvif.org/ver10/media/wsdl", "http://10.0.0.5/a"),
        entry("http://www.onvif.org/ver10/media/wsdl", "http://10.0.0.5/b"),
    ];
    let plan = plan_services(DEV, &services).unwrap();
    assert_eq!(plan.media.as_deref(), Some("http://10.0.0.5/b"));
}

#[test]
fn addresses_are_normalized_by_parsing() {
    let services = vec![entry("http://www.onvif.org/ver10/media/wsdl", "HTTP://10.0.0.5")];
    let plan = plan_services(DEV, &services).unwrap();
    assert_eq!(plan.media.as_deref(), Some("http://10.0.0.5/"));
}

#[test]
fn service_outside_base_is_refused() {
    let services = vec![
        entry("http://www.onvif.org/ver10/media/wsdl", "http://10.0.0.5/onvif/media"),
        entry("http://www.onvif.org/ver20/ptz/wsdl", "http://10.0.0.6/onvif/ptz"),
    ];
    match plan_services(DEV, &services) {
        Err(DeviceError::UnexpectedBehavior(msg)) => assert_eq!(
            msg,
            "Service URI http://10.0.0.6/onvif/ptz is not within base URI http://10.0.0.5/"
        ),
        other => panic!("unexpected {:?}", other),
    }
}

#[test]
fn mismatched_device_service_is_refused() {
    let services = vec![entry(
        "http://www.onvif.org/ver10/device/wsdl",
        "http://10.0.0.5/onvif/other_device",
    )];
    match plan_services(DEV, &services) {
        Err(DeviceError::UnexpectedBehavior(msg)) => assert_eq!(
            msg,
            "advertised device mgmt uri http://10.0.0.5/onvif/other_device not expected http://10.0.0.5/onvif/device_service"
        ),
        other => panic!("unexpected {:?}", other),
    }
}

#[test]
fn unparsable_service_address_is_refused() {
    let services = vec![entry("http://www.onvif.org/ver10/media/wsdl", "not a url")];
    match plan_services(DEV, &services) {
        Err(DeviceError::Unknown(Some(msg))) => assert_eq!(msg, "relative URL without a base"),
        other => panic!("unexpected {:?}", other),
    }
}

#[test]
fn first_bad_entry_decides_the_error() {
    let services = vec![
        entry("http://www.onvif.org/ver10/media/wsdl", "bad"),
        entry("http://www.onvif.org/ver10/media/wsdl", "http://other/"),
    ];
    assert!(matches!(plan_services(DEV, &services), Err(DeviceError::Unknown(Some(_)))));
}

#[test]
fn known_namespaces() {
    assert!(is_known_namespace("http://www.onvif.org/ver10/device/wsdl"));
    assert!(is_known_namespace("http://www.onvif.org/ver20/ptz/wsdl"));
    assert!(!is_known_namespace("http://www.onvif.org/ver10/recording/wsdl"));
}

#[test]
fn media_service_is_last_ver10_media_entry() {
    let services = vec![
        entry("http://www.onvif.org/ver20/media/wsdl", "http://10.0.0.5/m2"),
        entry("http://www.onvif.org/ver10/media/wsdl", "http://10.0.0.5/m1"),
        entry("http://www.onvif.org/ver10/media/wsdl", "http://10.0.0.5/m3"),
        entry("http://www.onvif.org/ver10/events/wsdl", "http://10.0.0.5/ev"),
    ];
    let plan = plan_services(DEV, &services).unwrap();
    assert_eq!(plan.media.as_deref(), Some("http://10.0.0.5/m3"));
    assert_eq!(plan.media2.as_deref(), Some("http://10.0.0.5/m2"));
    let only_media2 = vec![entry("http://www.onvif.org/ver20/media/wsdl", "http://10.0.0.5/m2")];
    assert!(plan_services(DEV, &only_media2).unwrap().media.is_none());
}
