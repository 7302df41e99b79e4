use lasercut_box::common::{Borders, CutType, DrawResult, Point, Segment, MAX_DIMENSION};
use lasercut_box::vinyl::{VinylBox, VinylBoxCfg, CLI_SUBCOMMAND, VINYL_FIE_NAME};

fn assert_vinyl_lines(drawn: &DrawResult, expected: &[((i64, i64), (i64, i64), CutType)]) {
    assert_eq!(drawn.segments.len(), expected.len());
    for (i, (from, to, class)) in expected.iter().enumerate() {
        assert_eq!(drawn.segments[i], Segment { from: *from, to: *to, class: *class }, "line {}", i);
    }
}

#[test]
fn vinyl_whole_net() {
    let cfg = VinylBoxCfg::from(2300, 40000, 35000, 120000).unwrap();
    let drawn = VinylBox::new(cfg).draw();
    let expected: [((i64, i64), (i64, i64), CutType); 125] = [
        ((202700, 5000), (466500, 5000), CutType::Cut),
        ((466500, 5000), (466500, 37700), CutType::Cut),
        ((466500, 37700), (202700, 37700), CutType::Bend),
        ((202700, 37700), (202700, 5000), CutType::Cut),
        ((202700, 37700), (162700, 37700), CutType::Cut),
        ((506500, 37700), (466500, 37700), CutType::Cut),
        ((506500, 37700), (506500, 72700), CutType::Cut),
        ((506500, 72700), (162700, 72700), CutType::Bend),
        ((162700, 72700), (162700, 37700), CutType::Cut),
        ((506500, 72700), (506500, 197300), CutType::Bend),
        ((506500, 197300), (162700, 197300), CutType::Bend),
        ((162700, 197300), (162700, 72700), CutType::Bend),
        ((127700, 35000), (160400, 35000), CutType::Cut),
        ((160400, 35000), (160400, 75000), CutType::Cut),
        ((160400, 75000), (127700, 75000), CutType::Bend),
        ((127700, 75000), (127700, 35000), CutType::Cut),
        ((508800, 35000), (541500, 35000), CutType::Cut),
        ((541500, 35000), (541500, 75000), CutType::Cut),
        ((541500, 75000), (508800, 75000), CutType::Bend),
        ((508800, 75000), (508800, 35000), CutType::Cut),
        ((162700, 197300), (127700, 197300), CutType::Cut),
        ((127700, 197300), (127700, 75000), CutType::Cut),
        ((541500, 75000), (541500, 197300), CutType::Cut),
        ((541500, 197300), (506500, 197300), CutType::Cut),
        ((160400, 72700), (162700, 72700), CutType::Cut),
        ((162700, 72700), (162700, 75000), CutType::Cut),
        ((162700, 75000), (160400, 75000), CutType::Cut),
        ((160400, 75000), (160400, 72700), CutType::Cut),
        ((506500, 72700), (508800, 72700), CutType::Cut),
        ((508800, 72700), (508800, 75000), CutType::Cut),
        ((508800, 75000), (506500, 75000), CutType::Cut),
        ((506500, 75000), (506500, 72700), CutType::Cut),
        ((47300, 199600), (167300, 199600), CutType::Cut),
        ((167300, 534200), (47300, 534200), CutType::Bend),
        ((47300, 534200), (47300, 199600), CutType::Bend),
        ((7300, 199600), (47300, 199600), CutType::Cut),
        ((47300, 534200), (7300, 534200), CutType::Cut),
        ((7300, 534200), (7300, 199600), CutType::Cut),
        ((165000, 534200), (165000, 699200), CutType::Cut),
        ((165000, 699200), (51900, 699200), CutType::Cut),
        ((51900, 699200), (51900, 534200), CutType::Cut),
        ((165000, 534200), (167300, 534200), CutType::Cut),
        ((167300, 534200), (167300, 536500), CutType::Cut),
        ((167300, 536500), (165000, 536500), CutType::Cut),
        ((165000, 536500), (165000, 534200), CutType::Cut),
        ((47300, 534200), (51900, 534200), CutType::Cut),
        ((51900, 534200), (51900, 536500), CutType::Cut),
        ((51900, 536500), (47300, 536500), CutType::Cut),
        ((47300, 536500), (47300, 534200), CutType::Cut),
        ((74600, 234600), (144600, 234600), CutType::Cut),
        ((144600, 234600), (144600, 259600), CutType::Cut),
        ((144600, 259600), (74600, 259600), CutType::Cut),
        ((74600, 259600), (74600, 234600), CutType::Cut),
        ((501900, 199600), (621900, 199600), CutType::Cut),
        ((621900, 199600), (621900, 534200), CutType::Bend),
        ((621900, 534200), (501900, 534200), CutType::Bend),
        ((621900, 199600), (661900, 199600), CutType::Cut),
        ((661900, 199600), (661900, 534200), CutType::Cut),
        ((661900, 534200), (621900, 534200), CutType::Cut),
        ((617300, 534200), (617300, 699200), CutType::Cut),
        ((617300, 699200), (504200, 699200), CutType::Cut),
        ((504200, 699200), (504200, 534200), CutType::Cut),
        ((501900, 534200), (504200, 534200), CutType::Cut),
        ((504200, 534200), (504200, 536500), CutType::Cut),
        ((504200, 536500), (501900, 536500), CutType::Cut),
        ((501900, 536500), (501900, 534200), CutType::Cut),
        ((617300, 534200), (621900, 534200), CutType::Cut),
        ((621900, 534200), (621900, 536500), CutType::Cut),
        ((621900, 536500), (617300, 536500), CutType::Cut),
        ((617300, 536500), (617300, 534200), CutType::Cut),
        ((524600, 234600), (594600, 234600), CutType::Cut),
        ((594600, 234600), (594600, 259600), CutType::Cut),
        ((594600, 259600), (524600, 259600), CutType::Cut),
        ((524600, 259600), (524600, 234600), CutType::Cut),
        ((75000, 699200), (165000, 699200), CutType::Cut),
        ((165000, 699200), (165000, 821500), CutType::Cut),
        ((165000, 821500), (75000, 821500), CutType::Bend),
        ((75000, 821500), (75000, 699200), CutType::Cut),
        ((165000, 821500), (165000, 991100), CutType::Cut),
        ((165000, 991100), (75000, 991100), CutType::Cut),
        ((75000, 991100), (75000, 821500), CutType::Cut),
        ((504200, 699200), (594200, 699200), CutType::Cut),
        ((594200, 699200), (594200, 821500), CutType::Cut),
        ((594200, 821500), (504200, 821500), CutType::Bend),
        ((504200, 821500), (504200, 699200), CutType::Cut),
        ((594200, 821500), (594200, 991100), CutType::Cut),
        ((594200, 991100), (504200, 991100), CutType::Cut),
        ((504200, 991100), (504200, 821500), CutType::Cut),
        ((105000, 726500), (130000, 726500), CutType::Cut),
        ((130000, 726500), (130000, 796500), CutType::Cut),
        ((130000, 796500), (105000, 796500), CutType::Cut),
        ((105000, 796500), (105000, 726500), CutType::Cut),
        ((539200, 726500), (564200, 726500), CutType::Cut),
        ((564200, 726500), (564200, 796500), CutType::Cut),
        ((564200, 796500), (539200, 796500), CutType::Cut),
        ((539200, 796500), (539200, 726500), CutType::Cut),
        ((162700, 197300), (167300, 197300), CutType::Cut),
        ((167300, 197300), (167300, 199600), CutType::Cut),
        ((167300, 199600), (162700, 199600), CutType::Cut),
        ((162700, 199600), (162700, 197300), CutType::Cut),
        ((501900, 197300), (506500, 197300), CutType::Cut),
        ((506500, 197300), (506500, 199600), CutType::Cut),
        ((506500, 199600), (501900, 199600), CutType::Cut),
        ((501900, 199600), (501900, 197300), CutType::Cut),
        ((501900, 197300), (501900, 536500), CutType::Bend),
        ((501900, 536500), (167300, 536500), CutType::Bend),
        ((167300, 536500), (167300, 197300), CutType::Bend),
        ((501900, 536500), (501900, 654200), CutType::Cut),
        ((501900, 654200), (167300, 654200), CutType::Bend),
        ((167300, 654200), (167300, 536500), CutType::Cut),
        ((499600, 654200), (499600, 991100), CutType::Cut),
        ((499600, 991100), (169600, 991100), CutType::Cut),
        ((169600, 991100), (169600, 654200), CutType::Cut),
        ((167300, 654200), (169600, 654200), CutType::Cut),
        ((169600, 654200), (169600, 656500), CutType::Cut),
        ((169600, 656500), (167300, 656500), CutType::Cut),
        ((167300, 656500), (167300, 654200), CutType::Cut),
        ((499600, 654200), (501900, 654200), CutType::Cut),
        ((501900, 654200), (501900, 656500), CutType::Cut),
        ((501900, 656500), (499600, 656500), CutType::Cut),
        ((499600, 656500), (499600, 654200), CutType::Cut),
        ((205000, 996100), (459600, 996100), CutType::Cut),
        ((459600, 996100), (459600, 1086100), CutType::Cut),
        ((459600, 1086100), (205000, 1086100), CutType::Cut),
        ((205000, 1086100), (205000, 996100), CutType::Cut),
    ];
    assert_vinyl_lines(&drawn, &expected);
    assert_eq!((drawn.max.x, drawn.max.y), (661900, 1086100));
    assert_eq!(drawn.default_file_name, "LaserCutVinylBox.svg");
}

#[test]
fn vinyl_handle_holes_decide_line_count() {
    let cases = [
        ((2300, 40000, 35000, 120000), 125, (661900, 1086100)),
        ((2300, 40000, 35000, 300000), 109, (1021900, 1446100)),
        ((2000, 40000, 100000, 90000), 117, (601000, 1154000)),
        ((2000, 40000, 35000, 250000), 125, (921000, 1344000)),
        ((2000, 40000, 35000, 251000), 109, (923000, 1346000)),
        ((2000, 30000, 20000, 40000), 125, (503000, 894000)),
        ((2000, 30000, 20000, 60000), 125, (523000, 934000)),
        ((2000, 30000, 20000, 130000), 125, (661000, 1074000)),
        ((2000, 30000, 20000, 134000), 125, (669000, 1082000)),
    ];
    for ((thickness, glue_flap, lid_height, width), lines, max) in cases {
        let cfg = VinylBoxCfg::from(thickness, glue_flap, lid_height, width).unwrap();
        let drawn = VinylBox::new(cfg).draw();
        assert_eq!(drawn.segments.len(), lines);
        assert_eq!((drawn.max.x, drawn.max.y), max);
    }
}

#[test]
fn vinyl_handle_hole_sizes() {
    let cases = [
        (20000, true, 5000, (10000, 25000), Borders::new_cut()),
        (20000, false, 5000, (25000, 10000), Borders::new_cut()),
        (59000, true, 24500, (10000, 25000), Borders::new_cut()),
        (59000, false, 24500, (25000, 10000), Borders::new_cut()),
        (60000, true, 25000, (10000, 25000), Borders::new_cut()),
        (60000, false, 25000, (25000, 10000), Borders::new_cut()),
        (61000, true, 25000, (11000, 25000), Borders::new_cut()),
        (61000, false, 25000, (25000, 11000), Borders::new_cut()),
        (100000, true, 25000, (50000, 25000), Borders::new_cut()),
        (100000, false, 25000, (25000, 50000), Borders::new_cut()),
        (130000, true, 25000, (80000, 25000), Borders::new_cut()),
        (130000, false, 25000, (25000, 80000), Borders::new_cut()),
        (131000, true, 25500, (80000, 25000), Borders::new_cut()),
        (131000, false, 25500, (25000, 80000), Borders::new_cut()),
        (200000, true, 60000, (80000, 25000), Borders::new_cut()),
        (200000, false, 60000, (25000, 80000), Borders::new_cut()),
        (250000, true, 85000, (80000, 25000), Borders::new_cut()),
        (250000, false, 85000, (25000, 80000), Borders::new_cut()),
        (251000, true, 0, (10000, 10000), Borders::nope()),
        (251000, false, 0, (10000, 10000), Borders::nope()),
        (400000, true, 0, (10000, 10000), Borders::nope()),
        (400000, false, 0, (10000, 10000), Borders::nope()),
    ];
    for (width, horizontal, side_offset, size, borders) in cases {
        let bx = VinylBox::new(VinylBoxCfg::from(2000, 40000, 35000, width).unwrap());
        let (offset, hole) = bx.handle_hole(horizontal);
        assert_eq!(offset, side_offset);
        assert_eq!((hole.square.w, hole.square.h), size);
        assert_eq!(hole.borders, borders);
    }
}

#[test]
fn vinyl_cfg_derives_height_and_length() {
    let cfg = VinylBoxCfg::from(2300, 40000, 35000, 120000).unwrap();
    assert_eq!(cfg.height, 336900);
    assert_eq!(cfg.length, 339200);
    assert_eq!((cfg.thickness, cfg.glue_flap, cfg.lid_height, cfg.width), (2300, 40000, 35000, 120000));
    assert_eq!(cfg.thick_n(3), 6900);
}

#[test]
fn vinyl_cfg_refuses_oversized_parameters() {
    assert!(VinylBoxCfg::from(MAX_DIMENSION, -MAX_DIMENSION, MAX_DIMENSION, -MAX_DIMENSION).is_some());
    assert!(VinylBoxCfg::from(MAX_DIMENSION + 1, 0, 0, 0).is_none());
    assert!(VinylBoxCfg::from(0, -MAX_DIMENSION - 1, 0, 0).is_none());
    assert!(VinylBoxCfg::from(0, 0, i64::MAX, 0).is_none());
    assert!(VinylBoxCfg::from(0, 0, 0, i64::MIN).is_none());
}

#[test]
fn vinyl_names() {
    assert_eq!(VINYL_FIE_NAME, "LaserCutVinylBox.svg");
    assert_eq!(CLI_SUBCOMMAND, "vinyl");
}

#[test]
fn vinyl_parts_move_the_cursor() {
    let cfg = VinylBoxCfg::from(2300, 40000, 35000, 120000).unwrap();
    let mut bx = VinylBox::new(cfg);
    assert_eq!((bx.offset.x, bx.offset.y), (165000, 5000));
    bx.draw_top_lid();
    assert_eq!((bx.offset.x, bx.offset.y), (165000, 197300));
    assert_eq!(bx.result.segments.len(), 32);
    bx.draw_side_walls();
    assert_eq!((bx.offset.x, bx.offset.y), (165000, 197300));
    assert_eq!(bx.result.segments.len(), 96);
    assert_eq!((bx.result.max.x, bx.result.max.y), (661900, 991100));
    bx.draw_main_walls();
    assert_eq!((bx.offset.x, bx.offset.y), (165000, 991100));
    assert_eq!(bx.result.segments.len(), 121);
    bx.draw_bottom_stripe();
    assert_eq!((bx.offset.x, bx.offset.y), (165000, 991100));
    assert_eq!(bx.result.segments.len(), 125);
    assert_eq!((bx.result.max.x, bx.result.max.y), (661900, 1086100));
}

#[test]
fn vinyl_half_stripes_with_holes() {
    let mut bx = VinylBox::new(VinylBoxCfg::from(2000, 40000, 35000, 100000).unwrap());
    bx.draw_vertical_half_stripes(50000, Point::new(300000, 400000));
    let expected: [((i64, i64), (i64, i64), CutType); 22] = [
        ((210000, 400000), (300000, 400000), CutType::Cut),
        ((300000, 400000), (300000, 502000), CutType::Cut),
        ((300000, 502000), (210000, 502000), CutType::Bend),
        ((210000, 502000), (210000, 400000), CutType::Cut),
        ((300000, 502000), (300000, 671000), CutType::Cut),
        ((300000, 671000), (210000, 671000), CutType::Cut),
        ((210000, 671000), (210000, 502000), CutType::Cut),
        ((350000, 400000), (440000, 400000), CutType::Cut),
        ((440000, 400000), (440000, 502000), CutType::Cut),
        ((440000, 502000), (350000, 502000), CutType::Bend),
        ((350000, 502000), (350000, 400000), CutType::Cut),
        ((440000, 502000), (440000, 671000), CutType::Cut),
        ((440000, 671000), (350000, 671000), CutType::Cut),
        ((350000, 671000), (350000, 502000), CutType::Cut),
        ((240000, 427000), (265000, 427000), CutType::Cut),
        ((265000, 427000), (265000, 477000), CutType::Cut),
        ((265000, 477000), (240000, 477000), CutType::Cut),
        ((240000, 477000), (240000, 427000), CutType::Cut),
        ((385000, 427000), (410000, 427000), CutType::Cut),
        ((410000, 427000), (410000, 477000), CutType::Cut),
        ((410000, 477000), (385000, 477000), CutType::Cut),
        ((385000, 477000), (385000, 427000), CutType::Cut),
    ];
    assert_vinyl_lines(&bx.result, &expected);
    assert_eq!((bx.result.max.x, bx.result.max.y), (440000, 671000));
}

#[test]
fn vinyl_half_stripes_without_holes_under_a_high_lid() {
    let mut bx = VinylBox::new(VinylBoxCfg::from(2000, 40000, 120000, 100000).unwrap());
    bx.draw_vertical_half_stripes(50000, Point::new(300000, 400000));
    let expected: [((i64, i64), (i64, i64), CutType); 14] = [
        ((210000, 400000), (300000, 400000), CutType::Cut),
        ((300000, 400000), (300000, 502000), CutType::Cut),
        ((300000, 502000), (210000, 502000), CutType::Bend),
        ((210000, 502000), (210000, 400000), CutType::Cut),
        ((300000, 502000), (300000, 671000), CutType::Cut),
        ((300000, 671000), (210000, 671000), CutType::Cut),
        ((210000, 671000), (210000, 502000), CutType::Cut),
        ((350000, 400000), (440000, 400000), CutType::Cut),
        ((440000, 400000), (440000, 502000), CutType::Cut),
        ((440000, 502000), (350000, 502000), CutType::Bend),
        ((350000, 502000), (350000, 400000), CutType::Cut),
        ((440000, 502000), (440000, 671000), CutType::Cut),
        ((440000, 671000), (350000, 671000), CutType::Cut),
        ((350000, 671000), (350000, 502000), CutType::Cut),
    ];
    assert_vinyl_lines(&bx.result, &expected);
    assert_eq!((bx.result.max.x, bx.result.max.y), (440000, 671000));
}

#[test]
fn vinyl_sheet_is_margin_box_stripe_and_what_lies_beside() {
    // (thickness, glue flap, lid rim, width)
    let cases: [(i64, i64, i64, i64); 7] = [
        (2300, 40000, 35000, 120000),
        (2300, 40000, 35000, 300000),
        (2000, 40000, 100000, 90000),
        (2000, 0, 80000, 0),
        (2000, 10000, 66000, 20000),
        (2000, 10000, 300000, 20000),
        (0, 0, 0, 0),
    ];
    for (t, g, lh, w) in cases {
        let cfg = VinylBoxCfg::from(t, g, lh, w).unwrap();
        let (h, l) = (cfg.height, cfg.length);
        assert_eq!((h, l), (330000 + 3 * t, 330000 + 4 * t));
        let drawn = VinylBox::new(cfg).draw();
        let hole_from_top = lh.max(35000);
        let hole = if w > 250000 { 10000 } else { 25000 };
        let stripe = if hole_from_top < 90000 { (hole_from_top + hole).max(90000) } else { 90000 };
        let beside = (lh + t).max(w + g - t).max(stripe);
        assert_eq!(drawn.max.x, 5000 + w + g + l + beside);
        assert_eq!(drawn.max.y, 5000 + 2 * (lh + w + h) + t + 5000 + 90000);
        for line in drawn.segments.iter() {
            assert!(line.class != CutType::Nope);
            assert!(line.from.0 <= drawn.max.x && line.to.0 <= drawn.max.x);
            assert!(line.from.1 <= drawn.max.y && line.to.1 <= drawn.max.y);
        }
    }
}

#[test]
fn vinyl_draws_behind_what_is_there() {
    let cfg = VinylBoxCfg::from(2300, 40000, 35000, 120000).unwrap();
    let mut bx = VinylBox::new(cfg);
    bx.result = DrawResult::new(
        vec![Segment { from: (1, 2), to: (3, 4), class: CutType::Cut }],
        Point::new(7, 8),
    );
    let drawn = bx.draw();
    assert_eq!(drawn.segments.len(), 126);
    assert_eq!(drawn.segments[0], Segment { from: (1, 2), to: (3, 4), class: CutType::Cut });
    assert_eq!((drawn.max.x, drawn.max.y), (661900, 1086100));
    assert_eq!(drawn.default_file_name, "LaserCutBox.svg");
}
