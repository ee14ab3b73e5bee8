use stars::clusters::{parse_cluster_id, ClusterTables, MembershipError};
use stars::deepsky::DeepSkyId;

/// Membership table in the committed layout: the four resolved clusters
/// plus a Hyades row whose Melotte designation is not a marker identifier.
const MEMBERSHIP_CSV: &str = "\
# Open-cluster membership (V-53 bootstrap slice)
cluster_id,hyg_id,hip_id,name
M45,17254,17499,Electra
M45,17286,17531,Taygeta
M45,17328,17573,Maia
M45,17363,17608,Merope
M45,17458,17702,Alcyone
M45,17604,17847,Atlas
M45,17608,17851,Pleione
M45,17244,17489,Celaeno
M45,17334,17579,Asterope
M44,42405,42516,Epsilon Cancri
M44,42329,42556,
M44,42389,42578,
M44,42428,42673,
NGC869,10938,11060,
NGC869,10983,,
NGC884,11180,11267,
NGC884,11205,,
Mel25,20844,20885,Theta1 Tauri
";

const PLEIADES_NAMED_HIP: &[u32] = &[17499, 17531, 17573, 17608, 17702, 17847, 17851];

fn tables() -> ClusterTables {
    ClusterTables::parse(MEMBERSHIP_CSV).expect("membership table parses")
}

#[test]
fn pleiades_named_seven_are_members() {
    let members = tables().cluster_members(DeepSkyId::Messier(45));
    assert!(
        !members.is_empty(),
        "Pleiades membership table should be populated"
    );
    for &hip in PLEIADES_NAMED_HIP {
        assert!(
            members.iter().any(|m| m.hip_id == Some(hip)),
            "Pleiades member with HIP {hip} should be present"
        );
    }
}

#[test]
fn pleiades_is_resolved_as_member_field() {
    assert!(tables().is_resolved_as_member_field(DeepSkyId::Messier(45)));
}

#[test]
fn praesepe_is_resolved_as_member_field() {
    assert!(tables().is_resolved_as_member_field(DeepSkyId::Messier(44)));
}

#[test]
fn double_cluster_is_resolved_as_member_field() {
    let t = tables();
    assert!(t.is_resolved_as_member_field(DeepSkyId::Ngc(869)));
    assert!(t.is_resolved_as_member_field(DeepSkyId::Ngc(884)));
}

#[test]
fn unrelated_dso_is_not_resolved_as_member_field() {
    let t = tables();
    assert!(!t.is_resolved_as_member_field(DeepSkyId::Messier(31)));
    assert!(!t.is_resolved_as_member_field(DeepSkyId::Ngc(7000)));
    assert!(!t.is_resolved_as_member_field(DeepSkyId::Ic(434)));
}

#[test]
fn cluster_member_hyg_ids_are_unique_per_cluster() {
    let t = tables();
    for id in t.resolved_cluster_ids() {
        let mut hygs: Vec<u32> = t.cluster_members(id).iter().map(|m| m.hyg_id).collect();
        hygs.sort_unstable();
        let len_before = hygs.len();
        hygs.dedup();
        assert_eq!(
            hygs.len(),
            len_before,
            "cluster {:?} contains a duplicate HYG id",
            id
        );
    }
}

#[test]
fn resolved_cluster_ids_match_v53_scope() {
    let mut ids = tables().resolved_cluster_ids();
    ids.sort_by_key(|id| id.sort_key());
    let expected = vec![
        DeepSkyId::Messier(44),
        DeepSkyId::Messier(45),
        DeepSkyId::Ngc(869),
        DeepSkyId::Ngc(884),
    ];
    assert_eq!(ids, expected, "V-53 ships exactly these four clusters");
}

#[test]
fn parse_cluster_id_accepts_documented_prefixes() {
    assert_eq!(parse_cluster_id("M45"), Some(DeepSkyId::Messier(45)));
    assert_eq!(parse_cluster_id("NGC869"), Some(DeepSkyId::Ngc(869)));
    assert_eq!(parse_cluster_id("IC434"), Some(DeepSkyId::Ic(434)));
    assert_eq!(parse_cluster_id("M0"), None);
    assert_eq!(parse_cluster_id("M111"), None);
    assert_eq!(parse_cluster_id("Mel25"), None);
    assert_eq!(parse_cluster_id("Cr285"), None);
}

#[test]
fn membership_members_keep_file_order_and_optional_hip() {
    let t = tables();
    let m44 = t.cluster_members(DeepSkyId::Messier(44));
    assert_eq!(m44.len(), 4);
    assert_eq!(m44[0].hyg_id, 42405);
    assert_eq!(m44[0].hip_id, Some(42516));
    let ngc869 = t.cluster_members(DeepSkyId::Ngc(869));
    assert_eq!(ngc869.len(), 2);
    assert_eq!(ngc869[1].hip_id, None);
    // The Melotte row is skipped.
    assert_eq!(t.resolved_cluster_ids().len(), 4);
}

#[test]
fn membership_errors_are_reported() {
    assert_eq!(
        ClusterTables::parse("cluster,hyg\nM45,1,2,x\n").err(),
        Some(MembershipError::HeaderMismatch)
    );
    assert!(matches!(
        ClusterTables::parse("cluster_id,hyg_id,hip_id,name\nM45,x,2,a\n"),
        Err(MembershipError::InvalidHygId)
    ));
    assert!(matches!(
        ClusterTables::parse("cluster_id,hyg_id,hip_id,name\nM45,1,y,a\n"),
        Err(MembershipError::InvalidHipId)
    ));
    assert!(matches!(
        ClusterTables::parse("cluster_id,hyg_id,hip_id,name\nM45\n"),
        Err(MembershipError::MissingColumn)
    ));
    // Blank lines and comments are ignored; an empty table is fine.
    let empty = ClusterTables::parse("\n# nothing\n").expect("empty table");
    assert!(empty.resolved_cluster_ids().is_empty());
}
