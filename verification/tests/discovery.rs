//! Discovery behaviour: preflight gating, fault isolation, aggregation
//! order, and the capability handles' write-through caches.

use cutelights::config::default_scan_timeout;
use cutelights::config::CuteLightsConfig;
use cutelights::config::GoveeConfig;
use cutelights::config::OpenRgbConfig;
use cutelights::discover::absorb_failure;
use cutelights::discover::Discoverer;
use cutelights::discover::Vendor;
use cutelights::error::LightError;
use cutelights::integrations::collect_present;
use cutelights::integrations::openrgb_endpoint;
use cutelights::integrations::govee_device_from_reply;
use cutelights::integrations::govee_into_lights;
use cutelights::integrations::GoveeIntegration;
use cutelights::integrations::OpenRgbIntegration;
use cutelights::lights::GoveeLight;
use cutelights::lights::Light;
use cutelights::lights::OpenRgbLight;
use cutelights::protocol::encode_status_response;
use cutelights::protocol::DeviceColor;
use cutelights::protocol::DeviceStatus;
use cutelights::protocol::Request;

fn govee_config(addresses: &[&str]) -> CuteLightsConfig {
    CuteLightsConfig {
        govee: GoveeConfig {
            enabled: true,
            addresses: addresses.iter().map(|a| a.to_string()).collect(),
            scan_timeout: default_scan_timeout(),
        },
        openrgb: OpenRgbConfig::default(),
    }
}

fn sample_status() -> DeviceStatus {
    DeviceStatus {
        on: true,
        brightness: 80,
        color: DeviceColor { r: 10, g: 20, b: 30 },
        color_temperature_kelvin: 3500,
    }
}

#[test]
fn preflight_gates_registration() {
    let mut d = Discoverer::new(CuteLightsConfig::default());
    d.register::<GoveeIntegration>();
    d.register::<OpenRgbIntegration>();
    assert!(d.selected.is_empty());

    let mut d = Discoverer::new(govee_config(&["10.0.0.5"]));
    d.register::<GoveeIntegration>();
    d.register::<OpenRgbIntegration>();
    assert_eq!(d.selected, vec![Vendor::Govee]);
}

#[test]
fn discovery_finds_answering_device() {
    // One configured address; the simulated device there answers the
    // status exchange.
    let config = govee_config(&["10.0.0.5"]);
    let mut d = Discoverer::new(config);
    d.register::<GoveeIntegration>();
    d.register::<OpenRgbIntegration>();
    assert_eq!(d.selected, vec![Vendor::Govee]);

    let reply = encode_status_response(&sample_status());
    let probe = govee_device_from_reply(&"10.0.0.5".to_string(), &reply);
    let devices = collect_present(vec![probe]);
    let lights = govee_into_lights(devices);
    let aggregate = d.run(vec![lights]);

    assert_eq!(aggregate.len(), 1);
    let light = &aggregate[0];
    assert_eq!(light.id(), "govee::10.0.0.5");
    assert!(light.is_on());
    assert_eq!(light.brightness(), 80);
    assert_eq!(light.red(), 10);
    assert_eq!(light.green(), 20);
    assert_eq!(light.blue(), 30);
    assert!(light.supports_color());
}

#[test]
fn silent_device_contributes_nothing() {
    // Same configuration, but the device never responds: the probe hands
    // back nothing, and the pass yields zero lights without failing.
    let config = govee_config(&["10.0.0.5"]);
    let mut d = Discoverer::new(config);
    d.register::<GoveeIntegration>();
    d.register::<OpenRgbIntegration>();

    let probe: Option<GoveeLight> = None;
    let devices = collect_present(vec![probe]);
    let lights = govee_into_lights(devices);
    let aggregate = d.run(vec![lights]);
    assert!(aggregate.is_empty());
}

#[test]
fn garbled_reply_is_skipped() {
    let probe = govee_device_from_reply(&"10.0.0.5".to_string(), "not a status reply");
    assert!(probe.is_none());
}

#[test]
fn total_failure_is_absorbed() {
    assert!(absorb_failure(Err(LightError::Discovery)).is_empty());
    assert!(absorb_failure(Err(LightError::Transport)).is_empty());
    let one = vec![Light::Govee(GoveeLight::new("10.0.0.5".to_string(), &sample_status()))];
    assert_eq!(absorb_failure(Ok(one)).len(), 1);
}

#[test]
fn one_failing_integration_never_hides_another() {
    // The lamp vendor answers; the hub vendor fails wholesale. The
    // aggregate still carries the lamp, in registration order.
    let config = CuteLightsConfig {
        govee: GoveeConfig {
            enabled: true,
            addresses: vec!["10.0.0.5".to_string()],
            scan_timeout: default_scan_timeout(),
        },
        openrgb: OpenRgbConfig { enabled: true, ..OpenRgbConfig::default() },
    };
    let mut d = Discoverer::new(config);
    d.register::<GoveeIntegration>();
    d.register::<OpenRgbIntegration>();
    assert_eq!(d.selected, vec![Vendor::Govee, Vendor::OpenRgb]);

    let reply = encode_status_response(&sample_status());
    let probe = govee_device_from_reply(&"10.0.0.5".to_string(), &reply);
    let govee_lights = govee_into_lights(collect_present(vec![probe]));
    let openrgb_lights = absorb_failure(Err(LightError::Discovery));

    let aggregate = d.run(vec![govee_lights, openrgb_lights]);
    assert_eq!(aggregate.len(), 1);
    assert_eq!(aggregate[0].id(), "govee::10.0.0.5");
}

#[test]
fn aggregate_keeps_registration_and_enumeration_order() {
    let config = CuteLightsConfig {
        govee: GoveeConfig {
            enabled: true,
            addresses: vec!["10.0.0.5".to_string(), "10.0.0.6".to_string()],
            scan_timeout: default_scan_timeout(),
        },
        openrgb: OpenRgbConfig { enabled: true, ..OpenRgbConfig::default() },
    };
    let mut d = Discoverer::new(config);
    d.register::<GoveeIntegration>();
    d.register::<OpenRgbIntegration>();

    let reply = encode_status_response(&sample_status());
    let probes = vec![
        govee_device_from_reply(&"10.0.0.5".to_string(), &reply),
        govee_device_from_reply(&"10.0.0.6".to_string(), &reply),
    ];
    let govee_lights = govee_into_lights(collect_present(probes));
    let hub = OpenRgbLight::new(0, "Main Hub".to_string(), vec![DeviceColor { r: 1, g: 2, b: 3 }]);
    let openrgb_lights = vec![Light::OpenRgb(hub)];

    let aggregate = d.run(vec![govee_lights, openrgb_lights]);
    let ids: Vec<String> = aggregate.iter().map(|l| l.id()).collect();
    assert_eq!(ids, vec!["govee::10.0.0.5", "govee::10.0.0.6", "openrgb::0"]);
}

#[test]
fn command_builders_mirror_mutators() {
    assert_eq!(GoveeLight::status_request(), Request::DevStatus {});
    // The on/off flag is built as the wire integer, not a native boolean.
    assert_eq!(GoveeLight::turn_request(true), Request::Turn { value: 1 });
    assert_eq!(GoveeLight::turn_request(false), Request::Turn { value: 0 });
    assert_eq!(GoveeLight::brightness_request(80), Request::Brightness { value: 80 });
    assert_eq!(
        GoveeLight::color_request(1, 2, 3),
        Request::Color { color: DeviceColor { r: 1, g: 2, b: 3 } }
    );
}

#[test]
fn write_through_cache() {
    let mut lamp = GoveeLight::new("10.0.0.5".to_string(), &sample_status());
    lamp.apply_set_color(1, 2, 3);
    assert_eq!((lamp.red(), lamp.green(), lamp.blue()), (1, 2, 3));
    // Untouched fields keep their cached values.
    assert_eq!(lamp.brightness(), 80);
    assert!(lamp.is_on());

    lamp.apply_set_brightness(55);
    assert_eq!(lamp.brightness(), 55);
    lamp.apply_set_on(false);
    assert!(!lamp.is_on());
    assert_eq!((lamp.red(), lamp.green(), lamp.blue()), (1, 2, 3));
}

#[test]
fn refresh_replaces_all_cached_state() {
    let mut lamp = GoveeLight::new("10.0.0.5".to_string(), &sample_status());
    lamp.apply_set_color(1, 2, 3);
    let fresh = DeviceStatus {
        on: false,
        brightness: 5,
        color: DeviceColor { r: 7, g: 8, b: 9 },
        color_temperature_kelvin: 2700,
    };
    lamp.apply_status(&fresh);
    assert!(!lamp.is_on());
    assert_eq!(lamp.brightness(), 5);
    assert_eq!((lamp.red(), lamp.green(), lamp.blue()), (7, 8, 9));
    assert_eq!(lamp.id(), "govee::10.0.0.5");
}

#[test]
fn hub_handle_caches_colors() {
    let mut hub = OpenRgbLight::new(
        3,
        "Main Hub".to_string(),
        vec![DeviceColor { r: 1, g: 2, b: 3 }, DeviceColor { r: 4, g: 5, b: 6 }],
    );
    assert_eq!(hub.id(), "openrgb::3");
    assert_eq!(hub.name(), "Main Hub");
    assert_eq!((hub.red(), hub.green(), hub.blue()), (1, 2, 3));
    assert!(hub.is_on());
    assert_eq!(hub.brightness(), 100);

    hub.apply_set_color(9, 9, 9);
    assert_eq!((hub.red(), hub.green(), hub.blue()), (9, 9, 9));
}

#[test]
fn aggregate_handles_dispatch_mutators() {
    let mut lamp = Light::Govee(GoveeLight::new("10.0.0.5".to_string(), &sample_status()));
    lamp.apply_set_color(1, 2, 3);
    assert_eq!((lamp.red(), lamp.green(), lamp.blue()), (1, 2, 3));
    lamp.apply_set_on(false);
    assert!(!lamp.is_on());
    lamp.apply_set_brightness(42);
    assert_eq!(lamp.brightness(), 42);

    let mut hub = Light::OpenRgb(OpenRgbLight::new(
        0,
        "Hub".to_string(),
        vec![DeviceColor { r: 0, g: 0, b: 0 }],
    ));
    hub.apply_set_color(1, 2, 3);
    assert_eq!((hub.red(), hub.green(), hub.blue()), (1, 2, 3));
    // The hub has no power or brightness control: commands are accepted
    // and ignored.
    hub.apply_set_on(false);
    assert!(hub.is_on());
    hub.apply_set_brightness(42);
    assert_eq!(hub.brightness(), 100);
}

#[test]
fn vendor_namespaces_never_collide() {
    // The same vendor-local identifier under both vendors.
    let lamp = GoveeLight::new("7".to_string(), &sample_status());
    let hub = OpenRgbLight::new(7, "Hub".to_string(), vec![]);
    assert_eq!(lamp.id(), "govee::7");
    assert_eq!(hub.id(), "openrgb::7");
    assert_ne!(
        Light::Govee(lamp).id(),
        Light::OpenRgb(hub).id(),
    );
}

#[test]
fn hub_endpoint_resolution() {
    // The conventional default host is a name, not a dotted quad: the
    // pass cannot even begin and will contribute nothing.
    let mut c = OpenRgbConfig::default();
    assert_eq!(openrgb_endpoint(&c), Err(LightError::Discovery));
    c.address = "127.0.0.1".to_string();
    assert_eq!(openrgb_endpoint(&c), Ok(((127, 0, 0, 1), 6742)));
}

#[test]
fn defaults_disable_every_vendor() {
    let c = CuteLightsConfig::default();
    assert!(!c.govee.enabled);
    assert!(!c.openrgb.enabled);
    assert!(c.govee.addresses.is_empty());
    assert_eq!(c.govee.scan_timeout, 5000);
    assert_eq!(c.openrgb.address, "localhost");
    assert_eq!(c.openrgb.port, 6742);
    assert_eq!(default_scan_timeout(), 5000);
}

#[test]
fn error_descriptions() {
    assert_eq!(LightError::Transport.describe(), "transport failure");
    assert_eq!(LightError::Protocol.describe(), "malformed or unexpected response");
    assert_eq!(LightError::Config.describe(), "malformed configuration");
    assert_eq!(LightError::Discovery.describe(), "discovery could not start");
}
