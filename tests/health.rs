use aion::fixed::{format_fixed, format_signed, format_u64, parse_decimal, SCALE};
use aion::kernel::{blend_health, classify_health, clamp_health, compute_overall_health};
use aion::organism::{
    compute_awareness, describe_awareness, format_topology_brief, sample_topology, NodeId, Organ,
    OrganId, OrganKind, SystemTopology,
};

fn organ(kind: OrganKind, health: u32) -> Organ {
    Organ {
        id: OrganId(1),
        node: NodeId(1),
        kind,
        caps: Vec::new(),
        health,
        peripherals: Vec::new(),
    }
}

fn topo(organs: Vec<Organ>) -> SystemTopology {
    SystemTopology { nodes: Vec::new(), organs }
}

#[test]
fn sample_topology_awareness_is_optimal() {
    let t = sample_topology();
    let a = compute_awareness(&t);
    assert_eq!(a, 98_100);
    assert_eq!(describe_awareness(a), "optimal");
    assert_eq!(format_fixed(a as u64, 3), "0.981");
}

#[test]
fn awareness_weights_core_roles() {
    let t = topo(vec![
        organ(OrganKind::Cortex, 50_000),
        organ(OrganKind::Memory, 100_000),
        organ(OrganKind::IoBridge, 0),
    ]);
    // 0.5 * 0.5 + 0.3 * 1.0 + 0.2 * 0.0
    assert_eq!(compute_awareness(&t), 55_000);
}

#[test]
fn awareness_bounds_and_monotonicity_on_samples() {
    let low = topo(vec![
        organ(OrganKind::Cortex, 0),
        organ(OrganKind::Memory, 0),
        organ(OrganKind::IoBridge, 0),
    ]);
    let high = topo(vec![
        organ(OrganKind::Cortex, SCALE),
        organ(OrganKind::Memory, SCALE),
        organ(OrganKind::IoBridge, SCALE),
    ]);
    assert_eq!(compute_awareness(&low), 0);
    assert_eq!(compute_awareness(&high), SCALE);
    let mut prev = 0;
    for h in [0u32, 10_000, 40_000, 70_000, 100_000] {
        let t = topo(vec![
            organ(OrganKind::Cortex, 60_000),
            organ(OrganKind::Memory, h),
            organ(OrganKind::IoBridge, 30_000),
        ]);
        let a = compute_awareness(&t);
        assert!(a <= SCALE);
        assert!(a >= prev);
        prev = a;
    }
}

#[test]
fn awareness_defaults_absent_roles_to_healthy() {
    assert_eq!(compute_awareness(&topo(Vec::new())), SCALE);
    let t = topo(vec![organ(OrganKind::Storage, 0), organ(OrganKind::Cortex, 0)]);
    // cortex 0, memory and io absent: 0.3 + 0.2
    assert_eq!(compute_awareness(&t), 50_000);
}

#[test]
fn overall_health_is_min_or_full() {
    assert_eq!(compute_overall_health(&topo(Vec::new())), SCALE);
    let t = topo(vec![
        organ(OrganKind::Cortex, 70_000),
        organ(OrganKind::Memory, 20_000),
        organ(OrganKind::Network, 90_000),
    ]);
    assert_eq!(compute_overall_health(&t), 20_000);
    assert_eq!(compute_overall_health(&sample_topology()), 97_000);
}

#[test]
fn health_label_boundaries() {
    assert_eq!(classify_health(85_000), "ok");
    assert_eq!(classify_health(84_999), "degraded");
    assert_eq!(classify_health(60_000), "degraded");
    assert_eq!(classify_health(59_999), "impaired");
    assert_eq!(classify_health(35_000), "impaired");
    assert_eq!(classify_health(34_999), "critical");
    assert_eq!(classify_health(1), "critical");
    assert_eq!(classify_health(0), "failed");
    assert_eq!(classify_health(SCALE), "ok");
}

#[test]
fn awareness_label_boundaries() {
    assert_eq!(describe_awareness(85_000), "optimal");
    assert_eq!(describe_awareness(84_999), "stable");
    assert_eq!(describe_awareness(60_000), "stable");
    assert_eq!(describe_awareness(59_999), "impaired");
    assert_eq!(describe_awareness(35_000), "impaired");
    assert_eq!(describe_awareness(34_999), "critical");
    assert_eq!(describe_awareness(1), "critical");
    assert_eq!(describe_awareness(0), "unconscious");
}

#[test]
fn blend_keeps_fixed_point() {
    for t in [0u32, 1, 33_333, 97_000, SCALE] {
        assert_eq!(blend_health(t, t), t);
    }
}

#[test]
fn blend_moves_a_quarter_of_the_way() {
    assert_eq!(blend_health(100_000, 60_000), 90_000);
    assert_eq!(blend_health(60_000, 100_000), 70_000);
    // rounded toward the target
    assert_eq!(blend_health(0, 1), 1);
    assert_eq!(blend_health(1, 0), 0);
    // out-of-range inputs are clamped first
    assert_eq!(blend_health(400_000, 100_000), 100_000);
}

#[test]
fn blend_converges_monotonically() {
    let target = 40_000;
    let mut h = SCALE;
    let mut steps = 0;
    while h != target {
        let next = blend_health(h, target);
        assert!(next < h && next >= target);
        h = next;
        steps += 1;
        assert!(steps <= 60_000);
    }
    let mut h = 0;
    while h != 70_000 {
        let next = blend_health(h, 70_000);
        assert!(next > h && next <= 70_000);
        h = next;
    }
}

#[test]
fn clamp_health_limits_range() {
    assert_eq!(clamp_health(-5), 0);
    assert_eq!(clamp_health(150_000), SCALE);
    assert_eq!(clamp_health(42), 42);
}

#[test]
fn fixed_point_formatting() {
    assert_eq!(format_fixed(98_100, 2), "0.98");
    assert_eq!(format_fixed(98_500, 2), "0.99");
    assert_eq!(format_fixed(100_000, 3), "1.000");
    assert_eq!(format_fixed(5_000, 5), "0.05000");
    assert_eq!(format_fixed(4_500_000, 1), "45.0");
    assert_eq!(format_fixed(12_345, 0), "0");
    assert_eq!(format_signed(-20_000, 2), "-0.20");
    assert_eq!(format_u64(0), "0");
    assert_eq!(format_u64(1_234_567), "1234567");
}

#[test]
fn decimal_parsing() {
    assert_eq!(parse_decimal("0.2"), Some(20_000));
    assert_eq!(parse_decimal("-1.5"), Some(-150_000));
    assert_eq!(parse_decimal("+3"), Some(300_000));
    assert_eq!(parse_decimal(".5"), Some(50_000));
    assert_eq!(parse_decimal("2."), Some(200_000));
    assert_eq!(parse_decimal("0.1234567"), Some(12_345));
    assert_eq!(parse_decimal("0.98000"), Some(98_000));
    assert_eq!(parse_decimal("99999999999"), Some(100_000_000_000_000));
    assert_eq!(parse_decimal("abc"), None);
    assert_eq!(parse_decimal("."), None);
    assert_eq!(parse_decimal(""), None);
    assert_eq!(parse_decimal("-"), None);
    assert_eq!(parse_decimal("1.2.3"), None);
    assert_eq!(parse_decimal("1e3"), Some(100_000_000));
    assert_eq!(parse_decimal("1e-1"), Some(10_000));
    assert_eq!(parse_decimal("2.5E2"), Some(25_000_000));
    assert_eq!(parse_decimal("1.234567e2"), Some(12_345_670));
    assert_eq!(parse_decimal("0.0000012e1"), Some(1));
    assert_eq!(parse_decimal("1e-9"), Some(0));
    assert_eq!(parse_decimal("0e999999999"), Some(0));
    assert_eq!(parse_decimal("7e999999999"), Some(100_000_000_000_000));
    assert_eq!(parse_decimal("inf"), Some(100_000_000_000_000));
    assert_eq!(parse_decimal("-Infinity"), Some(-100_000_000_000_000));
    assert_eq!(parse_decimal("NaN"), None);
    assert_eq!(parse_decimal("1e"), None);
    assert_eq!(parse_decimal("e5"), None);
    assert_eq!(parse_decimal("1e+"), None);
    assert_eq!(parse_decimal("infinit"), None);
}

#[test]
fn topology_brief_lists_nodes() {
    assert_eq!(
        format_topology_brief(&sample_topology()),
        "2 node(s), 3 organ(s) :: core-0 (primary brain), io-0 (peripheral bridge)"
    );
    assert_eq!(format_topology_brief(&topo(Vec::new())), "0 node(s), 0 organ(s)");
}
