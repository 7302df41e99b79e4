use lasercut_box::common::{CutType, DrawResult, Point, Segment, MAX_DIMENSION};
use lasercut_box::lid::{LidForBox, LidType, CLI_SUBCOMMAND, FILE_NAME_DEFAULT};

fn assert_lid_lines(drawn: &DrawResult, expected: &[((i64, i64), (i64, i64), CutType)]) {
    assert_eq!(drawn.segments.len(), expected.len());
    for (i, (from, to, class)) in expected.iter().enumerate() {
        assert_eq!(drawn.segments[i], Segment { from: *from, to: *to, class: *class }, "line {}", i);
    }
}

#[test]
fn lid_separated_whole_net() {
    let lid = LidForBox::new(LidType::Separated, 35000, 200000, 300000, 2300, 40000, false).unwrap();
    let drawn = lid.draw();
    let expected: [((i64, i64), (i64, i64), CutType); 54] = [
        ((80000, 5000), (304600, 5000), CutType::Cut),
        ((304600, 5000), (304600, 40000), CutType::Cut),
        ((304600, 40000), (80000, 40000), CutType::Bend),
        ((80000, 40000), (80000, 5000), CutType::Cut),
        ((80000, 40000), (40000, 40000), CutType::Cut),
        ((344600, 40000), (304600, 40000), CutType::Cut),
        ((344600, 40000), (344600, 77300), CutType::Cut),
        ((40000, 77300), (40000, 40000), CutType::Cut),
        ((40000, 77300), (344600, 77300), CutType::Bend),
        ((344600, 77300), (344600, 286500), CutType::Bend),
        ((344600, 286500), (40000, 286500), CutType::Bend),
        ((40000, 286500), (40000, 77300), CutType::Bend),
        ((37700, 77300), (40000, 77300), CutType::Cut),
        ((40000, 77300), (40000, 79600), CutType::Cut),
        ((40000, 79600), (37700, 79600), CutType::Cut),
        ((37700, 79600), (37700, 77300), CutType::Cut),
        ((344600, 77300), (346900, 77300), CutType::Cut),
        ((346900, 77300), (346900, 79600), CutType::Cut),
        ((346900, 79600), (344600, 79600), CutType::Cut),
        ((344600, 79600), (344600, 77300), CutType::Cut),
        ((37700, 284200), (40000, 284200), CutType::Cut),
        ((40000, 284200), (40000, 286500), CutType::Cut),
        ((40000, 286500), (37700, 286500), CutType::Cut),
        ((37700, 286500), (37700, 284200), CutType::Cut),
        ((344600, 284200), (346900, 284200), CutType::Cut),
        ((346900, 284200), (346900, 286500), CutType::Cut),
        ((346900, 286500), (344600, 286500), CutType::Cut),
        ((344600, 286500), (344600, 284200), CutType::Cut),
        ((2700, 39600), (37700, 39600), CutType::Cut),
        ((37700, 39600), (37700, 79600), CutType::Cut),
        ((37700, 79600), (2700, 79600), CutType::Bend),
        ((2700, 79600), (2700, 39600), CutType::Cut),
        ((346900, 39600), (381900, 39600), CutType::Cut),
        ((381900, 39600), (381900, 79600), CutType::Cut),
        ((381900, 79600), (346900, 79600), CutType::Bend),
        ((346900, 79600), (346900, 39600), CutType::Cut),
        ((2700, 284200), (2700, 79600), CutType::Cut),
        ((381900, 79600), (381900, 284200), CutType::Cut),
        ((2700, 284200), (37700, 284200), CutType::Bend),
        ((37700, 284200), (37700, 324200), CutType::Cut),
        ((37700, 324200), (2700, 324200), CutType::Cut),
        ((2700, 324200), (2700, 284200), CutType::Cut),
        ((346900, 284200), (381900, 284200), CutType::Bend),
        ((381900, 284200), (381900, 324200), CutType::Cut),
        ((381900, 324200), (346900, 324200), CutType::Cut),
        ((346900, 324200), (346900, 284200), CutType::Cut),
        ((344600, 286500), (344600, 323800), CutType::Cut),
        ((40000, 323800), (40000, 286500), CutType::Cut),
        ((80000, 323800), (304600, 323800), CutType::Bend),
        ((304600, 323800), (304600, 358800), CutType::Cut),
        ((304600, 358800), (80000, 358800), CutType::Cut),
        ((80000, 358800), (80000, 323800), CutType::Cut),
        ((40000, 323800), (80000, 323800), CutType::Cut),
        ((304600, 323800), (344600, 323800), CutType::Cut),
    ];
    assert_lid_lines(&drawn, &expected);
    assert_eq!((drawn.max.x, drawn.max.y), (381900, 358800));
    assert_eq!(drawn.default_file_name, "LaserCutLid.svg");
}

#[test]
fn lid_joined_whole_net() {
    let lid = LidForBox::new(LidType::Joined, 35000, 200000, 300000, 2300, 40000, false).unwrap();
    let drawn = lid.draw();
    let expected: [((i64, i64), (i64, i64), CutType); 32] = [
        ((80000, 5000), (304600, 5000), CutType::Cut),
        ((304600, 5000), (304600, 40000), CutType::Cut),
        ((304600, 40000), (80000, 40000), CutType::Bend),
        ((80000, 40000), (80000, 5000), CutType::Cut),
        ((80000, 40000), (40000, 40000), CutType::Cut),
        ((344600, 40000), (304600, 40000), CutType::Cut),
        ((344600, 40000), (344600, 77300), CutType::Cut),
        ((40000, 77300), (40000, 40000), CutType::Cut),
        ((40000, 77300), (344600, 77300), CutType::Bend),
        ((344600, 77300), (344600, 281900), CutType::Bend),
        ((344600, 281900), (40000, 281900), CutType::Bend),
        ((40000, 281900), (40000, 77300), CutType::Bend),
        ((37700, 77300), (40000, 77300), CutType::Cut),
        ((40000, 77300), (40000, 79600), CutType::Cut),
        ((40000, 79600), (37700, 79600), CutType::Cut),
        ((37700, 79600), (37700, 77300), CutType::Cut),
        ((344600, 77300), (346900, 77300), CutType::Cut),
        ((346900, 77300), (346900, 79600), CutType::Cut),
        ((346900, 79600), (344600, 79600), CutType::Cut),
        ((344600, 79600), (344600, 77300), CutType::Cut),
        ((2700, 39600), (37700, 39600), CutType::Cut),
        ((37700, 39600), (37700, 79600), CutType::Cut),
        ((37700, 79600), (2700, 79600), CutType::Bend),
        ((2700, 79600), (2700, 39600), CutType::Cut),
        ((346900, 39600), (381900, 39600), CutType::Cut),
        ((381900, 39600), (381900, 79600), CutType::Cut),
        ((381900, 79600), (346900, 79600), CutType::Bend),
        ((346900, 79600), (346900, 39600), CutType::Cut),
        ((40000, 281900), (2700, 281900), CutType::Cut),
        ((2700, 281900), (2700, 79600), CutType::Cut),
        ((381900, 79600), (381900, 281900), CutType::Cut),
        ((381900, 281900), (344600, 281900), CutType::Cut),
    ];
    assert_lid_lines(&drawn, &expected);
    assert_eq!((drawn.max.x, drawn.max.y), (381900, 281900));
    assert_eq!(drawn.default_file_name, "LaserCutLid.svg");
}

#[test]
fn lid_glued_whole_net() {
    let lid = LidForBox::new(LidType::Glued, 35000, 200000, 300000, 2300, 40000, false).unwrap();
    let drawn = lid.draw();
    let expected: [((i64, i64), (i64, i64), CutType); 40] = [
        ((80000, 5000), (304600, 5000), CutType::Cut),
        ((304600, 5000), (304600, 40000), CutType::Cut),
        ((304600, 40000), (80000, 40000), CutType::Bend),
        ((80000, 40000), (80000, 5000), CutType::Cut),
        ((80000, 40000), (40000, 40000), CutType::Cut),
        ((344600, 40000), (304600, 40000), CutType::Cut),
        ((344600, 40000), (344600, 77300), CutType::Cut),
        ((40000, 77300), (40000, 40000), CutType::Cut),
        ((40000, 77300), (344600, 77300), CutType::Bend),
        ((344600, 77300), (344600, 284200), CutType::Bend),
        ((344600, 284200), (40000, 284200), CutType::Bend),
        ((40000, 284200), (40000, 77300), CutType::Bend),
        ((37700, 77300), (40000, 77300), CutType::Cut),
        ((40000, 77300), (40000, 79600), CutType::Cut),
        ((40000, 79600), (37700, 79600), CutType::Cut),
        ((37700, 79600), (37700, 77300), CutType::Cut),
        ((344600, 77300), (346900, 77300), CutType::Cut),
        ((346900, 77300), (346900, 79600), CutType::Cut),
        ((346900, 79600), (344600, 79600), CutType::Cut),
        ((344600, 79600), (344600, 77300), CutType::Cut),
        ((37700, 281900), (40000, 281900), CutType::Cut),
        ((40000, 281900), (40000, 284200), CutType::Cut),
        ((40000, 284200), (37700, 284200), CutType::Cut),
        ((37700, 284200), (37700, 281900), CutType::Cut),
        ((344600, 281900), (346900, 281900), CutType::Cut),
        ((346900, 281900), (346900, 284200), CutType::Cut),
        ((346900, 284200), (344600, 284200), CutType::Cut),
        ((344600, 284200), (344600, 281900), CutType::Cut),
        ((2700, 39600), (37700, 39600), CutType::Cut),
        ((37700, 39600), (37700, 79600), CutType::Cut),
        ((37700, 79600), (2700, 79600), CutType::Bend),
        ((2700, 79600), (2700, 39600), CutType::Cut),
        ((346900, 39600), (381900, 39600), CutType::Cut),
        ((381900, 39600), (381900, 79600), CutType::Cut),
        ((381900, 79600), (346900, 79600), CutType::Bend),
        ((346900, 79600), (346900, 39600), CutType::Cut),
        ((40000, 284200), (2700, 284200), CutType::Cut),
        ((2700, 284200), (2700, 79600), CutType::Cut),
        ((381900, 79600), (381900, 284200), CutType::Cut),
        ((381900, 284200), (344600, 284200), CutType::Cut),
    ];
    assert_lid_lines(&drawn, &expected);
    assert_eq!((drawn.max.x, drawn.max.y), (381900, 284200));
    assert_eq!(drawn.default_file_name, "LaserCutLid.svg");
}

#[test]
fn lid_kinds_and_doubled_rim() {
    let cases = [
        (LidType::Joined, false, 32, (381900, 281900)),
        (LidType::Joined, true, 32, (421500, 281900)),
        (LidType::Glued, false, 40, (381900, 284200)),
        (LidType::Glued, true, 40, (421500, 284200)),
        (LidType::Separated, false, 54, (381900, 358800)),
        (LidType::Separated, true, 54, (421500, 358800)),
    ];
    for (kind, fat, lines, max) in cases {
        let lid = LidForBox::new(kind, 35000, 200000, 300000, 2300, 40000, fat).unwrap();
        let drawn = lid.draw();
        assert_eq!(drawn.segments.len(), lines);
        assert_eq!((drawn.max.x, drawn.max.y), max);
    }
}

#[test]
fn lid_draw_from_hands_out_cursor_below_net() {
    let cases = [
        (LidType::Joined, 35000, 40000, (100000, 326000), (441000, 326000)),
        (LidType::Glued, 35000, 40000, (100000, 328000), (441000, 328000)),
        (LidType::Separated, 35000, 40000, (100000, 402000), (441000, 402000)),
        (LidType::Separated, 10000, 40000, (100000, 324000), (416000, 318000)),
        (LidType::Separated, 20000, 40000, (100000, 342000), (426000, 342000)),
        (LidType::Separated, 10000, 21000, (100000, 305000), (416000, 302000)),
    ];
    for (kind, height, glue_flap, below, max) in cases {
        let lid = LidForBox::new(kind, height, 200000, 300000, 2000, glue_flap, false).unwrap();
        let (cursor, drawn) = lid.draw_from(Point::new(100000, 50000));
        assert_eq!((cursor.x, cursor.y), below);
        assert_eq!((drawn.max.x, drawn.max.y), max);
    }
}

#[test]
fn lid_refuses_oversized_parameters() {
    assert!(LidForBox::new(LidType::Joined, MAX_DIMENSION, 0, 0, 0, 0, false).is_some());
    assert!(LidForBox::new(LidType::Joined, MAX_DIMENSION + 1, 0, 0, 0, 0, false).is_none());
    assert!(LidForBox::new(LidType::Glued, 0, -MAX_DIMENSION - 1, 0, 0, 0, false).is_none());
    assert!(LidForBox::new(LidType::Glued, 0, 0, MAX_DIMENSION + 1, 0, 0, true).is_none());
    assert!(LidForBox::new(LidType::Separated, 0, 0, 0, i64::MIN, 0, true).is_none());
    assert!(LidForBox::new(LidType::Separated, 0, 0, 0, 0, i64::MAX, true).is_none());
}

#[test]
fn lid_starts_empty_and_keeps_parameters() {
    let lid = LidForBox::new(LidType::Glued, 35000, 200000, 300000, 2300, 40000, true).unwrap();
    assert_eq!(lid.cfg.ltype, LidType::Glued);
    assert_eq!(lid.cfg.height, 35000);
    assert_eq!(lid.cfg.box_outer_width, 200000);
    assert_eq!(lid.cfg.box_outer_length, 300000);
    assert_eq!(lid.cfg.thickness, 2300);
    assert_eq!(lid.cfg.glue_flap, 40000);
    assert!(lid.cfg.fat_border);
    assert!(lid.result.segments.is_empty());
    assert_eq!((lid.result.max.x, lid.result.max.y), (0, 0));
    assert_eq!(lid.result.default_file_name, "LaserCutLid.svg");
    assert_eq!(lid.thick_n(4), 9200);
}

#[test]
fn lid_names() {
    assert_eq!(FILE_NAME_DEFAULT, "LaserCutLid.svg");
    assert_eq!(CLI_SUBCOMMAND, "lid");
}

#[test]
fn lid_draws_behind_what_is_there() {
    let mut lid = LidForBox::new(LidType::Joined, 35000, 200000, 300000, 2300, 40000, false).unwrap();
    lid.result = DrawResult::new(
        vec![Segment { from: (1, 2), to: (3, 4), class: CutType::Bend }],
        Point::new(900000, 1),
    );
    let drawn = lid.draw();
    assert_eq!(drawn.segments.len(), 33);
    assert_eq!(drawn.segments[0], Segment { from: (1, 2), to: (3, 4), class: CutType::Bend });
    assert_eq!((drawn.max.x, drawn.max.y), (900000, 281900));
    assert_eq!(drawn.default_file_name, "LaserCutBox.svg");
}

#[test]
fn lid_sheet_is_margin_rim_and_top_wall() {
    // (kind, doubled rim, rim, box width, box length, thickness, glue flap)
    let cases: [(LidType, bool, i64, i64, i64, i64, i64); 8] = [
        (LidType::Joined, false, 35000, 200000, 300000, 2300, 40000),
        (LidType::Joined, true, 35000, 200000, 300000, 2300, 40000),
        (LidType::Glued, false, 35000, 200000, 300000, 2300, 40000),
        (LidType::Glued, true, 20000, 100000, 150000, 3000, 0),
        (LidType::Separated, false, 35000, 200000, 300000, 2300, 40000),
        (LidType::Separated, true, 10000, 200000, 300000, 2000, 100000),
        (LidType::Separated, false, 10000, 200000, 300000, 2000, 24000),
        (LidType::Separated, false, 0, 0, 0, 0, 0),
    ];
    for (kind, fat, rim, width, length, t, g) in cases {
        let drawn = LidForBox::new(kind, rim, width, length, t, g, fat).unwrap().draw();
        let lid_len = length + if fat { 4 * t } else { 2 * t };
        let (around, lines) = match kind {
            LidType::Joined => (2, 32),
            LidType::Glued => (3, 40),
            LidType::Separated => (4, 54),
        };
        let lid_width = width + around * t;
        let tail = if kind == LidType::Separated { (2 * rim + t).max(g - t) } else { 0 };
        let start = 5000 + if fat { 2 * rim } else { rim };
        assert_eq!(drawn.max.x, start + lid_len + rim + t);
        assert_eq!(drawn.max.y, 5000 + 2 * rim + t + lid_width + tail);
        assert_eq!(drawn.segments.len(), lines);
        for line in drawn.segments.iter() {
            assert!(line.class != CutType::Nope);
            assert!(line.from.0 <= drawn.max.x && line.to.0 <= drawn.max.x);
            assert!(line.from.1 <= drawn.max.y && line.to.1 <= drawn.max.y);
        }
    }
}
