use tempo_ingest::endpoint::resolve;
use tempo_ingest::endpoint::Region;

#[test]
fn mapped_regions_resolve_to_their_hosts() {
    assert_eq!(resolve(Region::NewYork).host, "ewr1.beta.tempo.temporal.xyz");
    assert_eq!(resolve(Region::Frankfurt).host, "fra1.beta.tempo.temporal.xyz");
    assert_eq!(resolve(Region::Amsterdam).host, "ams1.beta.tempo.temporal.xyz");
    assert_eq!(resolve(Region::London).host, "lon1.beta.tempo.temporal.xyz");
}

#[test]
fn every_region_resolves_non_empty() {
    for r in [
        Region::NewYork,
        Region::Frankfurt,
        Region::Amsterdam,
        Region::London,
        Region::Unmapped,
    ] {
        let e = resolve(r);
        assert!(!e.host.is_empty());
        assert_eq!(e.port, 50051);
    }
}

#[test]
fn unmapped_region_resolves_to_default() {
    let e = resolve(Region::Unmapped);
    assert_eq!(e.host, resolve(Region::Frankfurt).host);
    assert_eq!(e.host, "fra1.beta.tempo.temporal.xyz");
}

#[test]
fn url_builds_scheme_host_and_port() {
    let e = resolve(Region::NewYork);
    assert_eq!(e.url(true), "https://ewr1.beta.tempo.temporal.xyz:50051");
    assert_eq!(e.url(false), "http://ewr1.beta.tempo.temporal.xyz:50051");
}
