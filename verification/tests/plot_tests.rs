use compound_report::decode::{decode_response, MatchOutcome};
use compound_report::model::{BondInfo, Conformer, Coords};
use compound_report::plot::{default_png_dir, plan_segments, png_path, PlotPlan};

fn five_point_conformer() -> Vec<Coords> {
    vec![Coords {
        conformers: vec![Conformer {
            x: vec!["1.0", "2.0", "3.0", "4.0", "5.0"].into_iter().map(String::from).collect(),
            y: vec!["0.1", "0.2", "0.3", "0.4", "0.5"].into_iter().map(String::from).collect(),
        }],
    }]
}

#[test]
fn two_bonds_give_two_segments() {
    let coords = five_point_conformer();
    let bonds = vec![BondInfo { aid1: vec![0, 1], aid2: vec![1, 2], order: vec![1, 1] }];
    match plan_segments(&coords, &bonds) {
        PlotPlan::Draw(p) => {
            assert_eq!(p.segments, vec![(0, 1), (1, 2)]);
            assert!(!p.out_of_range);
        }
        PlotPlan::NoConformer => panic!("a conformer is present"),
    }
}

#[test]
fn out_of_range_bond_is_skipped_and_flagged() {
    let coords = five_point_conformer();
    let bonds = vec![BondInfo { aid1: vec![0, 4], aid2: vec![7, 1], order: vec![1, 1] }];
    match plan_segments(&coords, &bonds) {
        PlotPlan::Draw(p) => {
            assert_eq!(p.segments, vec![(4, 1)]);
            assert!(p.out_of_range);
        }
        PlotPlan::NoConformer => panic!("a conformer is present"),
    }
}

#[test]
fn no_conformer_skips_the_plot() {
    let coords: Vec<Coords> = vec![];
    let bonds = vec![BondInfo { aid1: vec![0], aid2: vec![1], order: vec![1] }];
    assert!(matches!(plan_segments(&coords, &bonds), PlotPlan::NoConformer));
    let empty_set = vec![Coords { conformers: vec![] }];
    assert!(matches!(plan_segments(&empty_set, &bonds), PlotPlan::NoConformer));
}

#[test]
fn segments_span_all_bond_tables() {
    let coords = five_point_conformer();
    let bonds = vec![
        BondInfo { aid1: vec![0], aid2: vec![1], order: vec![1] },
        BondInfo { aid1: vec![2], aid2: vec![3], order: vec![2] },
    ];
    match plan_segments(&coords, &bonds) {
        PlotPlan::Draw(p) => {
            assert_eq!(p.segments, vec![(0, 1), (2, 3)]);
            assert!(!p.out_of_range);
        }
        PlotPlan::NoConformer => panic!("a conformer is present"),
    }
}

#[test]
fn decoded_response_plans_two_segments() {
    let body = br#"{"PC_Compounds":[{"bonds":[{"aid1":[0,1],"aid2":[1,2],"order":[1,1]}],"coords":[{"conformers":[{"x":[1.0,2.0,3.0,4.0,5.0],"y":[0.1,0.2,0.3,0.4,0.5]}]}]}]}"#;
    let out = decode_response(body).expect("valid JSON");
    match out {
        MatchOutcome::Single(c) => {
            let coords = c.coords.expect("coords present");
            let bonds = c.bonds.expect("bonds present");
            match plan_segments(&coords, &bonds) {
                PlotPlan::Draw(p) => {
                    assert_eq!(p.segments.len(), 2);
                    assert!(!p.out_of_range);
                }
                PlotPlan::NoConformer => panic!("a conformer is present"),
            }
        }
        _ => panic!("expected a single compound"),
    }
}

#[test]
fn png_path_is_dir_name_suffix() {
    assert_eq!(png_path("png_out/", "Aspirin"), "png_out/Aspirin.png");
    assert_eq!(default_png_dir(), "png_out/");
}
