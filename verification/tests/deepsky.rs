use stars::deepsky::{
    decode_messier_id, decode_openngc_id, decode_table, is_well_formed_table, DeepSkyId,
    DeepSkyIdEncoding, DeepSkyKind, MessierCatalog, NgcBrightCatalog,
};

#[test]
fn ngc_id_label_round_trips() {
    assert_eq!(DeepSkyId::Messier(31).label(), "M31");
    assert_eq!(DeepSkyId::Ngc(7000).label(), "NGC7000");
    assert_eq!(DeepSkyId::Ic(434).label(), "IC434");
}

#[test]
fn deep_sky_sort_key_orders_families() {
    assert!(DeepSkyId::Messier(110).sort_key() < DeepSkyId::Ngc(1).sort_key());
    assert!(DeepSkyId::Ngc(7000).sort_key() < DeepSkyId::Ic(1).sort_key());
    assert!(DeepSkyId::Ngc(869).sort_key() < DeepSkyId::Ngc(884).sort_key());
}

#[test]
fn deep_sky_raw_ids_decode_by_sign() {
    assert_eq!(decode_messier_id(45), DeepSkyId::Messier(45));
    assert_eq!(decode_openngc_id(224), DeepSkyId::Ngc(224));
    assert_eq!(decode_openngc_id(-435), DeepSkyId::Ic(434));
    assert_eq!(decode_openngc_id(-2), DeepSkyId::Ic(1));
}

#[test]
fn deep_sky_kind_tags() {
    assert_eq!(DeepSkyKind::from_tag(1), DeepSkyKind::OpenCluster);
    assert_eq!(DeepSkyKind::from_tag(3), DeepSkyKind::Galaxy);
    assert_eq!(DeepSkyKind::from_tag(6), DeepSkyKind::SupernovaRemnant);
    assert_eq!(DeepSkyKind::from_tag(0), DeepSkyKind::Other);
    assert_eq!(DeepSkyKind::from_tag(200), DeepSkyKind::Other);
}

#[test]
fn deep_sky_catalog_names() {
    assert!(!MessierCatalog.name().is_empty());
    assert!(!NgcBrightCatalog.name().is_empty());
}

fn table(magic: &[u8], rows: &[(i16, i16, i16, i16, i16, u16, u8)]) -> Vec<u8> {
    let mut out = magic.to_vec();
    out.extend_from_slice(&(rows.len() as u32).to_le_bytes());
    for &(x, y, z, id, mag, size, kind) in rows {
        out.extend_from_slice(&x.to_le_bytes());
        out.extend_from_slice(&y.to_le_bytes());
        out.extend_from_slice(&z.to_le_bytes());
        out.extend_from_slice(&id.to_le_bytes());
        out.extend_from_slice(&mag.to_le_bytes());
        out.extend_from_slice(&size.to_le_bytes());
        out.push(kind);
        out.push(0);
    }
    out
}

#[test]
fn deep_sky_table_decodes_records() {
    let magic = b"MSSR1\0\0\0";
    let data = table(magic, &[(100, -200, 300, 31, 340, 1780, 3), (1, 2, 3, 45, 160, 1100, 1)]);
    assert!(is_well_formed_table(&data, magic));
    {
        let rows = decode_table(&data, magic, DeepSkyIdEncoding::Messier);
        assert_eq!(rows.len(), 2);
        assert_eq!(rows[0].id, DeepSkyId::Messier(31));
        assert_eq!(rows[1].id, DeepSkyId::Messier(45));
        assert_eq!(rows[0].y_q, -200);
        assert_eq!(rows[0].magnitude_centi, 340);
        assert_eq!(rows[0].kind, DeepSkyKind::Galaxy);
        assert_eq!(rows[1].kind, DeepSkyKind::OpenCluster);
    }
    assert!(!is_well_formed_table(&data[..data.len() - 1], magic));
    assert!(!is_well_formed_table(&data, b"NGCBR1\0\0"));
}
