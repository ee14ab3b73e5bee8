use stars::doubles::{parse_double_rows, DoubleTableError};
use stars::ranking::parse_named_star_rows;
use stars::tables::{read_table, TableError};
use stars::variables::{parse_variable_rows, variable_index_for, VariableTableError, VariableType};

const VARIABLES: &str = "\
# L-20 showpiece variables
name,hip,hd,var_type,period_days,epoch_jd,mag_bright,mag_faint,secondary_depth_mag,eclipse_half_width,reference

Algol (beta Persei),14576,19356,algol,2.867315,2445641.5135,2.09,3.30,0.06,0.08,GCVS
Mira (omicron Ceti),10826,14386,mira,332.0,2459000.0,3.0,9.5,0,0,VSX
Delta Cephei,110991,0,cepheid,5.366249,2436075.445,3.48,4.37,0,0,GCVS
";

#[test]
fn variable_table_reads_rows_in_order() {
    let rows = parse_variable_rows(VARIABLES).expect("table reads");
    assert_eq!(rows.len(), 3);
    assert_eq!(rows[0].name, "Algol (beta Persei)");
    assert_eq!(rows[0].line, 4);
    assert_eq!(rows[0].hip, Some(14576));
    assert_eq!(rows[0].var_type, VariableType::Algol);
    assert_eq!(rows[0].elements, vec!["2.867315", "2445641.5135", "2.09", "3.30", "0.06", "0.08"]);
    assert_eq!(rows[0].reference, "GCVS");
    // A zero catalogue number means "none".
    assert_eq!(rows[2].hd, None);
    assert_eq!(rows[1].var_type, VariableType::Mira);
}

#[test]
fn variable_table_errors_carry_line_numbers() {
    let bad_header = "name,hip\nAlgol,1\n";
    assert_eq!(
        parse_variable_rows(bad_header).unwrap_err(),
        VariableTableError::Table(TableError::HeaderMismatch { line: 1 })
    );
    let short_row = "name,hip,hd,var_type,period_days,epoch_jd,mag_bright,mag_faint,secondary_depth_mag,eclipse_half_width,reference\nAlgol,1,2\n";
    assert_eq!(
        parse_variable_rows(short_row).unwrap_err(),
        VariableTableError::Table(TableError::ColumnCount { line: 2, found: 3 })
    );
    let bad_type = "name,hip,hd,var_type,period_days,epoch_jd,mag_bright,mag_faint,secondary_depth_mag,eclipse_half_width,reference\n# c\nX,1,2,flare,1,2,3,4,5,6,R\n";
    assert_eq!(
        parse_variable_rows(bad_type).unwrap_err(),
        VariableTableError::UnknownVarType { line: 3 }
    );
}

#[test]
fn variable_lookup_prefers_hip_then_hd_then_name() {
    let rows = parse_variable_rows(VARIABLES).unwrap();
    assert_eq!(variable_index_for(&rows, Some(10826), None, None), Some(1));
    assert_eq!(variable_index_for(&rows, Some(1), Some(19356), None), Some(0));
    assert_eq!(variable_index_for(&rows, None, None, Some("  ALGOL ")), Some(0));
    assert_eq!(variable_index_for(&rows, None, None, Some("delta cephei")), Some(2));
    assert_eq!(variable_index_for(&rows, None, None, Some("Algol (beta")), None);
    assert_eq!(variable_index_for(&rows, None, None, Some("   ")), None);
    assert_eq!(variable_index_for(&rows, Some(5), Some(6), Some("Vega")), None);
}

#[test]
fn generic_table_reader_trims_fields() {
    let rows = read_table("# x\n a , b \n 1 ,2\n\n3,4", "a , b", 2).unwrap();
    assert_eq!(rows.len(), 2);
    assert_eq!(rows[0].line, 3);
    assert_eq!(rows[0].fields, vec!["1", "2"]);
    assert_eq!(rows[1].line, 5);
}

const DOUBLES: &str = "\
name,hyg_id,ra_hours,dec_deg,rho_arcsec,theta_deg,m1,m2,bv1,bv2,epoch,wds_id
Albireo,95696,19.512,27.960,34.4,54,3.1,4.7,1.1,-0.1,2020,19307+2758
";

#[test]
fn double_table_reads_measurements_as_text() {
    let rows = parse_double_rows(DOUBLES).unwrap();
    assert_eq!(rows.len(), 1);
    assert_eq!(rows[0].name, "Albireo");
    assert_eq!(rows[0].hyg_id, 95696);
    assert_eq!(rows[0].measurements, vec!["19.512", "27.960", "34.4", "54", "3.1", "4.7", "1.1", "-0.1"]);
    let bad = DOUBLES.replace("95696", "x");
    assert_eq!(parse_double_rows(&bad).unwrap_err(), DoubleTableError::InvalidHygId { line: 2 });
}

#[test]
fn named_star_rows_use_line_numbers_and_optional_columns() {
    let tsv = "# proper\tbayer\n\
Sirius\tAlp\t9\t2491\t48915\t32349\tCMa\t1.7677\t-0.2917\t-1.46\t2.64\r\n\
short\tline\n\
\t\t\t\t\t91262\tLyr\t4.87\t0.677\t0.03\t7.68";
    let rows = parse_named_star_rows(tsv);
    assert_eq!(rows.len(), 2);
    let sirius = &rows[0].names;
    assert_eq!(sirius.index, 1);
    assert_eq!(sirius.proper.as_deref(), Some("Sirius"));
    assert_eq!(sirius.flam.as_deref(), Some("9"));
    assert_eq!(sirius.hd, Some(48915));
    assert_eq!(sirius.constellation.as_deref(), Some("CMa"));
    assert_eq!(rows[0].measurements, vec!["1.7677", "-0.2917", "-1.46", "2.64"]);
    let vega = &rows[1].names;
    assert_eq!(vega.index, 3);
    assert_eq!(vega.proper, None);
    assert_eq!(vega.hr, None);
    assert_eq!(vega.hip, Some(91262));
}
