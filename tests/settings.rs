use hyperlane_base::settings::{ChainConf, Level, Settings, SettingsError, Style, TracingConfig};
use hyperlane_base::types::HyperlaneDomain;
use hyperlane_base::utils::{make_target, make_target_starkli, u128_vec_to_u8_vec, HostArch, HostOs};

fn settings() -> Settings {
    let conf = |name: &str, id: u32| {
        (name.to_string(), ChainConf { domain: HyperlaneDomain { name: name.to_string(), id } })
    };
    Settings {
        chains: vec![conf("alpha", 1), conf("beta", 2)],
        metrics_port: 9090,
        tracing: TracingConfig { fmt: Style::Json, level: Level::Info },
    }
}

#[test]
fn lookup_domain_by_chain_name() {
    let s = settings();
    let d = s.lookup_domain("beta").unwrap();
    assert_eq!((d.name.as_str(), d.id), ("beta", 2));
    assert_eq!(s.lookup_domain("gamma").unwrap_err(), SettingsError::NoChainSetup);
    assert_eq!(s.lookup_domain("").unwrap_err(), SettingsError::NoChainSetup);
}

#[test]
fn chain_setup_by_domain_name() {
    let s = settings();
    let d = HyperlaneDomain { name: "alpha".to_string(), id: 99 };
    assert_eq!(s.chain_setup(&d).unwrap().domain.id, 1);
    let missing = HyperlaneDomain { name: "zeta".to_string(), id: 1 };
    assert_eq!(s.chain_setup(&missing).unwrap_err(), SettingsError::NoChainSetup);
}

#[test]
fn agent_core_holds_a_copy_of_the_settings() {
    let s = settings();
    let core = s.build_hyperlane_core(5u8);
    assert_eq!(core.metrics, 5);
    assert_eq!(core.settings.metrics_port, 9090);
    assert_eq!(core.settings.tracing, s.tracing);
    assert_eq!(core.settings.chains.len(), 2);
    assert_eq!(core.settings.chains[1].0, "beta");
    assert_eq!(core.settings.chains[1].1.domain.id, 2);
    let copy = s.clone();
    assert_eq!(copy.chains[0].1.domain.name, "alpha");
}

#[test]
fn words_flatten_big_endian() {
    assert!(u128_vec_to_u8_vec(vec![]).is_empty());
    let out = u128_vec_to_u8_vec(vec![0x0102, u128::MAX]);
    assert_eq!(out.len(), 32);
    assert_eq!(&out[..16], &[0, 0, 0, 0, 0, 0, 0, 0, 0, 0, 0, 0, 0, 0, 1, 2]);
    assert_eq!(&out[16..], &[0xff; 16]);
}

#[test]
fn release_targets() {
    assert_eq!(make_target(HostOs::Linux, HostArch::X86_64), "linux-amd64");
    assert_eq!(make_target(HostOs::MacOs, HostArch::Aarch64), "darwin-arm64");
    assert_eq!(make_target_starkli(HostOs::Linux, HostArch::X86_64), "x86_64-linux-android");
    assert_eq!(make_target_starkli(HostOs::MacOs, HostArch::Aarch64), "aarch64-apple-darwin");
}
