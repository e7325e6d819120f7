use tcping::ip::{IpAddress, Ipv4Address, Ipv6Address};
use tcping::resolve::{
    plan_resolution, select_candidate, AddressFamily, ResolutionError, ResolutionPlan,
    ResolvedTarget,
};

fn t4(o0: u8, o1: u8, o2: u8, o3: u8, port: u16) -> ResolvedTarget {
    ResolvedTarget {
        ip: IpAddress::V4(Ipv4Address { o0, o1, o2, o3 }),
        port,
    }
}

fn t6(last: u16, port: u16) -> ResolvedTarget {
    ResolvedTarget {
        ip: IpAddress::V6(Ipv6Address {
            g0: 0,
            g1: 0,
            g2: 0,
            g3: 0,
            g4: 0,
            g5: 0,
            g6: 0,
            g7: last,
        }),
        port,
    }
}

#[test]
fn literal_host_needs_no_lookup() {
    assert_eq!(
        plan_resolution(b"192.168.1.7", 443),
        ResolutionPlan::Literal(t4(192, 168, 1, 7, 443))
    );
    assert_eq!(
        plan_resolution(b"::1", 80),
        ResolutionPlan::Literal(t6(1, 80))
    );
}

#[test]
fn name_host_goes_to_lookup() {
    assert_eq!(plan_resolution(b"example.com", 443), ResolutionPlan::Lookup);
    assert_eq!(plan_resolution(b"256.1.1.1", 443), ResolutionPlan::Lookup);
    assert_eq!(plan_resolution(b"", 443), ResolutionPlan::Lookup);
}

#[test]
fn first_candidate_wins() {
    let candidates = vec![t4(10, 0, 0, 1, 80), t4(10, 0, 0, 2, 80), t6(1, 80)];
    assert_eq!(select_candidate(&candidates, None), Ok(t4(10, 0, 0, 1, 80)));
}

#[test]
fn family_filter_skips_to_first_match() {
    let candidates = vec![t6(1, 80), t4(10, 0, 0, 2, 80), t4(10, 0, 0, 3, 80)];
    assert_eq!(
        select_candidate(&candidates, Some(AddressFamily::V4)),
        Ok(t4(10, 0, 0, 2, 80))
    );
    assert_eq!(
        select_candidate(&candidates, Some(AddressFamily::V6)),
        Ok(t6(1, 80))
    );
}

#[test]
fn no_candidate_is_a_resolution_error() {
    let empty: Vec<ResolvedTarget> = vec![];
    assert_eq!(
        select_candidate(&empty, None),
        Err(ResolutionError::NoAddressFound)
    );
    let only_v6 = vec![t6(1, 80)];
    assert_eq!(
        select_candidate(&only_v6, Some(AddressFamily::V4)),
        Err(ResolutionError::NoAddressFound)
    );
}
