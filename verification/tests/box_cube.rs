use lasercut_box::box_cube::{BoxCube, BoxCubeCfg, CfgError, BOX_CUBE_FIE_NAME};
use lasercut_box::common::{CutType, DrawResult, Point, Segment, MAX_DIMENSION};

fn assert_cube_lines(drawn: &DrawResult, expected: &[((i64, i64), (i64, i64), CutType)]) {
    assert_eq!(drawn.segments.len(), expected.len());
    for (i, (from, to, class)) in expected.iter().enumerate() {
        assert_eq!(drawn.segments[i], Segment { from: *from, to: *to, class: *class }, "line {}", i);
    }
}

fn cube_cfg(t: i64, g: i64, lh: i64, h: i64, l: i64, w: i64) -> BoxCubeCfg {
    BoxCubeCfg::new(t, g, lh, Some(h), Some(l), Some(w)).unwrap()
}

#[test]
fn box_cube_whole_net() {
    let drawn = BoxCube::new(cube_cfg(2300, 40000, 40000, 100000, 300000, 200000)).draw();
    let expected: [((i64, i64), (i64, i64), CutType); 84] = [
        ((207300, 5000), (247300, 5000), CutType::Cut),
        ((247300, 45000), (207300, 45000), CutType::Cut),
        ((207300, 45000), (207300, 5000), CutType::Cut),
        ((565700, 5000), (605700, 5000), CutType::Cut),
        ((605700, 5000), (605700, 45000), CutType::Cut),
        ((605700, 45000), (565700, 45000), CutType::Cut),
        ((247300, 5000), (565700, 5000), CutType::Cut),
        ((565700, 5000), (565700, 45000), CutType::Bend),
        ((565700, 45000), (247300, 45000), CutType::Bend),
        ((247300, 45000), (247300, 5000), CutType::Bend),
        ((209600, 47300), (249600, 47300), CutType::Cut),
        ((249600, 254200), (209600, 254200), CutType::Cut),
        ((209600, 254200), (209600, 47300), CutType::Cut),
        ((563400, 47300), (603400, 47300), CutType::Cut),
        ((603400, 47300), (603400, 254200), CutType::Cut),
        ((603400, 254200), (563400, 254200), CutType::Cut),
        ((563400, 45000), (563400, 254200), CutType::Bend),
        ((563400, 254200), (249600, 254200), CutType::Bend),
        ((249600, 254200), (249600, 45000), CutType::Bend),
        ((245000, 45000), (249600, 45000), CutType::Cut),
        ((249600, 45000), (249600, 47300), CutType::Cut),
        ((249600, 47300), (245000, 47300), CutType::Cut),
        ((245000, 47300), (245000, 45000), CutType::Cut),
        ((563400, 45000), (568000, 45000), CutType::Cut),
        ((568000, 45000), (568000, 47300), CutType::Cut),
        ((568000, 47300), (563400, 47300), CutType::Cut),
        ((563400, 47300), (563400, 45000), CutType::Cut),
        ((249600, 254200), (254200, 254200), CutType::Cut),
        ((254200, 254200), (254200, 256500), CutType::Cut),
        ((254200, 256500), (249600, 256500), CutType::Cut),
        ((249600, 256500), (249600, 254200), CutType::Cut),
        ((558800, 254200), (563400, 254200), CutType::Cut),
        ((563400, 254200), (563400, 256500), CutType::Cut),
        ((563400, 256500), (558800, 256500), CutType::Cut),
        ((558800, 256500), (558800, 254200), CutType::Cut),
        ((558800, 256500), (558800, 358800), CutType::Bend),
        ((558800, 358800), (254200, 358800), CutType::Bend),
        ((254200, 358800), (254200, 256500), CutType::Bend),
        ((211900, 256500), (254200, 256500), CutType::Cut),
        ((254200, 356500), (211900, 356500), CutType::Cut),
        ((211900, 356500), (211900, 256500), CutType::Cut),
        ((249600, 356500), (254200, 356500), CutType::Cut),
        ((254200, 356500), (254200, 358800), CutType::Cut),
        ((254200, 358800), (249600, 358800), CutType::Cut),
        ((249600, 358800), (249600, 356500), CutType::Cut),
        ((558800, 256500), (601100, 256500), CutType::Cut),
        ((601100, 256500), (601100, 356500), CutType::Cut),
        ((601100, 356500), (558800, 356500), CutType::Cut),
        ((558800, 356500), (563400, 356500), CutType::Cut),
        ((563400, 356500), (563400, 358800), CutType::Cut),
        ((563400, 358800), (558800, 358800), CutType::Cut),
        ((558800, 358800), (558800, 356500), CutType::Cut),
        ((561100, 358800), (561100, 463400), CutType::Bend),
        ((561100, 463400), (251900, 463400), CutType::Bend),
        ((251900, 463400), (251900, 358800), CutType::Bend),
        ((45000, 358800), (251900, 358800), CutType::Cut),
        ((251900, 463400), (45000, 463400), CutType::Cut),
        ((45000, 463400), (45000, 358800), CutType::Bend),
        ((2700, 358800), (45000, 358800), CutType::Cut),
        ((45000, 463400), (2700, 463400), CutType::Cut),
        ((2700, 463400), (2700, 358800), CutType::Cut),
        ((561100, 358800), (768000, 358800), CutType::Cut),
        ((768000, 358800), (768000, 463400), CutType::Bend),
        ((768000, 463400), (561100, 463400), CutType::Cut),
        ((768000, 358800), (810300, 358800), CutType::Cut),
        ((810300, 358800), (810300, 463400), CutType::Cut),
        ((810300, 463400), (768000, 463400), CutType::Cut),
        ((558800, 463400), (558800, 565700), CutType::Bend),
        ((558800, 565700), (254200, 565700), CutType::Cut),
        ((254200, 565700), (254200, 463400), CutType::Bend),
        ((211900, 465700), (254200, 465700), CutType::Cut),
        ((254200, 565700), (211900, 565700), CutType::Cut),
        ((211900, 565700), (211900, 465700), CutType::Cut),
        ((249600, 463400), (254200, 463400), CutType::Cut),
        ((254200, 463400), (254200, 465700), CutType::Cut),
        ((254200, 465700), (249600, 465700), CutType::Cut),
        ((249600, 465700), (249600, 463400), CutType::Cut),
        ((558800, 465700), (601100, 465700), CutType::Cut),
        ((601100, 465700), (601100, 565700), CutType::Cut),
        ((601100, 565700), (558800, 565700), CutType::Cut),
        ((558800, 463400), (563400, 463400), CutType::Cut),
        ((563400, 463400), (563400, 465700), CutType::Cut),
        ((563400, 465700), (558800, 465700), CutType::Cut),
        ((558800, 465700), (558800, 463400), CutType::Cut),
    ];
    assert_cube_lines(&drawn, &expected);
    assert_eq!((drawn.max.x, drawn.max.y), (810300, 565700));
    assert_eq!(drawn.default_file_name, "LaserCutBoxCube.svg");
    assert_eq!(BOX_CUBE_FIE_NAME, "LaserCutBoxCube.svg");
}

#[test]
fn box_cube_parts_move_the_cursor() {
    let mut bx = BoxCube::new(cube_cfg(2300, 40000, 40000, 100000, 300000, 200000));
    assert_eq!((bx.offset.x, bx.offset.y), (256500, 5000));
    bx.draw_top_lid();
    assert_eq!((bx.offset.x, bx.offset.y), (256500, 256500));
    assert_eq!(bx.result.segments.len(), 35);
    assert_eq!((bx.result.max.x, bx.result.max.y), (605700, 256500));
    bx.draw_main_walls();
    assert_eq!((bx.offset.x, bx.offset.y), (256500, 463400));
    assert_eq!(bx.result.segments.len(), 84);
    assert_eq!((bx.result.max.x, bx.result.max.y), (810300, 565700));
}

#[test]
fn box_cube_side_walls_are_mirror_twins() {
    let mut bx = BoxCube::new(cube_cfg(3000, 20000, 30000, 60000, 120000, 80000));
    bx.offset = Point::new(500000, 700000);
    bx.draw_side_walls();
    let expected: [((i64, i64), (i64, i64), CutType); 12] = [
        ((405000, 700000), (494000, 700000), CutType::Cut),
        ((494000, 766000), (405000, 766000), CutType::Cut),
        ((405000, 766000), (405000, 700000), CutType::Bend),
        ((382000, 700000), (405000, 700000), CutType::Cut),
        ((405000, 766000), (382000, 766000), CutType::Cut),
        ((382000, 766000), (382000, 700000), CutType::Cut),
        ((626000, 700000), (715000, 700000), CutType::Cut),
        ((715000, 700000), (715000, 766000), CutType::Bend),
        ((715000, 766000), (626000, 766000), CutType::Cut),
        ((715000, 700000), (738000, 700000), CutType::Cut),
        ((738000, 700000), (738000, 766000), CutType::Cut),
        ((738000, 766000), (715000, 766000), CutType::Cut),
    ];
    assert_cube_lines(&bx.result, &expected);
    assert_eq!((bx.offset.x, bx.offset.y), (500000, 700000));
    assert_eq!((bx.result.max.x, bx.result.max.y), (738000, 766000));
}

#[test]
fn box_cube_cfg_asks_for_the_sizes_of_the_box() {
    assert_eq!(BoxCubeCfg::new(1, 2, 3, None, Some(5), Some(6)), Err(CfgError::MissingSize));
    assert_eq!(BoxCubeCfg::new(1, 2, 3, Some(4), None, Some(6)), Err(CfgError::MissingSize));
    assert_eq!(BoxCubeCfg::new(1, 2, 3, Some(4), Some(5), None), Err(CfgError::MissingSize));
    assert_eq!(BoxCubeCfg::new(i64::MAX, 2, 3, None, None, None), Err(CfgError::MissingSize));
    let cfg = BoxCubeCfg::new(1, 2, 3, Some(4), Some(5), Some(6)).unwrap();
    assert_eq!(
        (cfg.thickness, cfg.glue_flap, cfg.lid_height, cfg.height, cfg.length, cfg.width),
        (1, 2, 3, 4, 5, 6)
    );
    assert_eq!(cfg.thick_n(8), 8);
}

#[test]
fn box_cube_cfg_refuses_oversized_parameters() {
    let m = MAX_DIMENSION;
    assert!(BoxCubeCfg::new(m, -m, m, Some(-m), Some(m), Some(-m)).is_ok());
    assert_eq!(BoxCubeCfg::new(m + 1, 0, 0, Some(0), Some(0), Some(0)), Err(CfgError::TooLarge));
    assert_eq!(BoxCubeCfg::new(0, -m - 1, 0, Some(0), Some(0), Some(0)), Err(CfgError::TooLarge));
    assert_eq!(BoxCubeCfg::new(0, 0, i64::MAX, Some(0), Some(0), Some(0)), Err(CfgError::TooLarge));
    assert_eq!(BoxCubeCfg::new(0, 0, 0, Some(i64::MIN), Some(0), Some(0)), Err(CfgError::TooLarge));
    assert_eq!(BoxCubeCfg::new(0, 0, 0, Some(0), Some(m + 1), Some(0)), Err(CfgError::TooLarge));
    assert_eq!(BoxCubeCfg::new(0, 0, 0, Some(0), Some(0), Some(m + 1)), Err(CfgError::TooLarge));
}

#[test]
fn box_cube_sheet_is_margin_box_and_what_lies_beside() {
    // (thickness, glue flap, lid rim, height, length, width)
    let cases: [(i64, i64, i64, i64, i64, i64); 5] = [
        (2300, 40000, 40000, 100000, 300000, 200000),
        (2000, 0, 400000, 50000, 60000, 10000),
        (2000, 10000, 90000, 50000, 60000, 40000),
        (0, 0, 0, 0, 0, 0),
        (1000, 3000, 1000, 2000, 4000, 0),
    ];
    for (t, g, lh, h, l, w) in cases {
        let drawn = BoxCube::new(cube_cfg(t, g, lh, h, l, w)).draw();
        let beside = (lh + 3 * t).max(w + g + 6 * t);
        assert_eq!(drawn.max.x, 5000 + w + g + 5 * t + l + beside);
        assert_eq!(drawn.max.y, 5000 + lh + w + 3 * h + 9 * t);
        assert_eq!(drawn.segments.len(), 84);
        for line in drawn.segments.iter() {
            assert!(line.class != CutType::Nope);
            assert!(line.from.0 <= drawn.max.x && line.to.0 <= drawn.max.x);
            assert!(line.from.1 <= drawn.max.y && line.to.1 <= drawn.max.y);
        }
    }
}
