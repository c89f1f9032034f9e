use k8s_insider::commands::create::create_tunnel_crd;
use k8s_insider::wireguard::keys::WgKey;

#[test]
fn keys_must_be_canonical_base64_of_32_bytes() {
    assert!(WgKey::from_base64("AAECAwQFBgcICQoLDA0ODxAREhMUFRYXGBkaGxwdHh8=").is_ok());
    assert!(WgKey::from_base64("//////////////////////////////////////////8=").is_ok());
    // the last character carries bits beyond the 256th
    assert!(WgKey::from_base64("//////////////////////////////////////////9=").is_err());
    assert!(WgKey::from_base64("AAECAwQFBgcICQoLDA0ODxAREhMUFRYXGBkaGxwdHh8").is_err());
    assert!(WgKey::from_base64("AAECAwQFBgcICQoLDA0ODxAREhMUFRYXGBkaGxwdHh8==").is_err());
    assert!(WgKey::from_base64("AAECAwQFBgcICQoLDA0ODxAREhMUFRYXGBkaGxwdH*8=").is_err());
}

#[test]
fn dnssec_base32_of_known_keys() {
    let k = WgKey::from_base64("AAECAwQFBgcICQoLDA0ODxAREhMUFRYXGBkaGxwdHh8=").unwrap();
    assert_eq!(k.to_dnssec_base32(), "000g40o40k30e209185go38e1s8124gj2gahc5oo34d1m70t3ofg");
    let ones = WgKey::from_base64("//////////////////////////////////////////8=").unwrap();
    assert_eq!(ones.to_dnssec_base32(), format!("{}g", "v".repeat(51)));
    let zeros = WgKey::from_base64(&format!("{}=", "A".repeat(43))).unwrap();
    assert_eq!(zeros.to_dnssec_base32(), "0".repeat(52));
}

#[test]
fn different_keys_give_different_dns_safe_names() {
    let a = WgKey::from_base64(&format!("{}=", "A".repeat(43))).unwrap();
    let b = WgKey::from_base64(&format!("B{}=", "A".repeat(42))).unwrap();
    let ea = a.to_dnssec_base32();
    let eb = b.to_dnssec_base32();
    assert_ne!(ea, eb);
    for e in [&ea, &eb] {
        assert_eq!(e.len(), 52);
        assert!(e.chars().all(|c| c.is_ascii_digit() || ('a'..='v').contains(&c)));
    }
}

#[test]
fn tunnel_resource() {
    let public = WgKey::from_base64("AAECAwQFBgcICQoLDA0ODxAREhMUFRYXGBkaGxwdHh8=").unwrap();
    let psk = WgKey::from_base64(&format!("{}=", "A".repeat(43))).unwrap();
    let t = create_tunnel_crd("dev", "space", &public, &psk, None);
    assert_eq!(
        t.metadata.name.as_deref(),
        Some("dev-000g40o40k30e209185go38e1s8124gj2gahc5oo34d1m70t3ofg")
    );
    assert_eq!(t.metadata.namespace.as_deref(), Some("space"));
    assert_eq!(t.spec.network, "dev");
    assert_eq!(t.spec.peer_public_key, "AAECAwQFBgcICQoLDA0ODxAREhMUFRYXGBkaGxwdHh8=");
    assert_eq!(t.spec.preshared_key, format!("{}=", "A".repeat(43)));
    assert!(t.spec.static_ip.is_none());
    assert!(t.status.is_none());
}
