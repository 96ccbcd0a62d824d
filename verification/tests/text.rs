use evbmfont::{
    build_descriptor, make_fnt, Axis, Cli, FontDescriptor, FontError, GlyphRecord, SourceImage,
};

const INFO_TAIL: &str =
    " bold=0 italic=0 unicode=1 stretchH=100 smooth=1 aa=0 padding=0,0,0,0 spacing=0,0";

fn sheet(width: u32, height: u32, opaque: &[(u32, u32)]) -> SourceImage {
    let mut rgba = vec![0u8; (width * height * 4) as usize];
    for &(x, y) in opaque {
        rgba[((y * width + x) * 4 + 3) as usize] = 255;
    }
    SourceImage::new(width, height, rgba).unwrap()
}

fn two_tiles() -> SourceImage {
    sheet(16, 8, &[(0, 0), (1, 0), (2, 0), (3, 0), (4, 0), (5, 0)])
}

#[test]
fn two_tile_sheet_gives_the_expected_text() {
    let out = make_fnt(&two_tiles(), "art/sheet.png", "sheet.fnt", 8, 8, ' ', "art/sheet.png").unwrap();
    let expected = format!(
        "info face=\"sheet\" size=8{}\n\
         common lineHeight=8 base=0 scaleW=16 scaleH=8 pages=1 packed=0\n\
         page id=0 file=\"art/sheet.png\"\n\
         chars count=2\n\
         char id=32 x=0 y=0 width=7 height=8 xoffset=0 yoffset=0 xadvance=7 page=0 chnl=0\n\
         char id=33 x=8 y=0 width=2 height=8 xoffset=0 yoffset=0 xadvance=2 page=0 chnl=0\n\
         kernings count=0\n",
        INFO_TAIL
    );
    assert_eq!(out.text, expected);
    assert_eq!(out.warning, None);
}

#[test]
fn char_lines_follow_the_scan_order() {
    let img = sheet(4, 4, &[(1, 0), (3, 1), (0, 3)]);
    let out = make_fnt(&img, "g.png", "g.fnt", 2, 2, 'a', "g.png").unwrap();
    let lines: Vec<&str> = out.text.lines().collect();
    assert_eq!(lines.len(), 9);
    assert_eq!(lines[3], "chars count=4");
    assert_eq!(
        lines[4],
        "char id=97 x=0 y=0 width=3 height=8 xoffset=0 yoffset=0 xadvance=3 page=0 chnl=0"
    );
    assert_eq!(
        lines[5],
        "char id=98 x=2 y=0 width=3 height=8 xoffset=0 yoffset=0 xadvance=3 page=0 chnl=0"
    );
    assert_eq!(
        lines[6],
        "char id=99 x=0 y=2 width=2 height=8 xoffset=0 yoffset=0 xadvance=2 page=0 chnl=0"
    );
    assert_eq!(
        lines[7],
        "char id=100 x=2 y=2 width=2 height=8 xoffset=0 yoffset=0 xadvance=2 page=0 chnl=0"
    );
    assert_eq!(lines[8], "kernings count=0");
    assert!(out.text.ends_with("kernings count=0\n"));
}

#[test]
fn char_line_count_equals_tile_count() {
    let img = sheet(40, 24, &[]);
    let out = make_fnt(&img, "f.png", "f.fnt", 8, 8, ' ', "f.png").unwrap();
    let chars = out.text.lines().filter(|line| line.starts_with("char ")).count();
    assert_eq!(chars, 15);
    assert!(out.text.contains("\nchars count=15\n"));
    assert_eq!(out.text.lines().count(), 15 + 5);
}

#[test]
fn char_height_is_always_written_as_eight() {
    let img = sheet(6, 3, &[(2, 1)]);
    let out = make_fnt(&img, "f.png", "f.fnt", 3, 3, '0', "f.png").unwrap();
    let lines: Vec<&str> = out.text.lines().collect();
    assert_eq!(lines[0], format!("info face=\"f\" size=3{}", INFO_TAIL));
    assert_eq!(lines[1], "common lineHeight=3 base=0 scaleW=6 scaleH=3 pages=1 packed=0");
    assert_eq!(
        lines[4],
        "char id=48 x=0 y=0 width=4 height=8 xoffset=0 yoffset=0 xadvance=4 page=0 chnl=0"
    );
}

#[test]
fn same_inputs_give_the_same_text() {
    let a = make_fnt(&two_tiles(), "a/b.png", "b.fnt", 8, 8, '!', "b.png").unwrap();
    let b = make_fnt(&two_tiles(), "a/b.png", "b.fnt", 8, 8, '!', "b.png").unwrap();
    assert_eq!(a.text, b.text);
    assert_eq!(a.warning, b.warning);
}

#[test]
fn width_not_a_multiple_is_a_dimension_mismatch() {
    let img = sheet(10, 8, &[]);
    let r = make_fnt(&img, "f.png", "f.fnt", 8, 8, ' ', "f.png");
    assert_eq!(r.err(), Some(FontError::DimensionMismatch { axis: Axis::Width, divisor: 8 }));
}

#[test]
fn height_not_a_multiple_is_a_dimension_mismatch() {
    let img = sheet(16, 9, &[]);
    let r = make_fnt(&img, "f.png", "f.fnt", 8, 6, ' ', "f.png");
    assert_eq!(r.err(), Some(FontError::DimensionMismatch { axis: Axis::Height, divisor: 6 }));
}

#[test]
fn width_is_checked_before_height() {
    let img = sheet(10, 9, &[]);
    let r = make_fnt(&img, "f.png", "f.fnt", 4, 4, ' ', "f.png");
    assert_eq!(r.err(), Some(FontError::DimensionMismatch { axis: Axis::Width, divisor: 4 }));
}

#[test]
fn zero_tile_is_rejected() {
    let img = sheet(8, 8, &[]);
    assert_eq!(make_fnt(&img, "f.png", "f.fnt", 0, 8, ' ', "f.png").err(), Some(FontError::EmptyTile));
    assert_eq!(make_fnt(&img, "f.png", "f.fnt", 8, 0, ' ', "f.png").err(), Some(FontError::EmptyTile));
    assert_eq!(make_fnt(&img, "f.png", "f.fnt", 0, 0, ' ', "f.png").err(), Some(FontError::EmptyTile));
    let r = build_descriptor(&img, String::from("f"), 0, 3, ' ', String::from("f.png"));
    assert_eq!(r.err(), Some(FontError::EmptyTile));
}

#[test]
fn errors_have_messages() {
    assert_eq!(
        FontError::DimensionMismatch { axis: Axis::Width, divisor: 8 }.message(),
        "Image width must be a multiple of 8"
    );
    assert_eq!(
        FontError::DimensionMismatch { axis: Axis::Height, divisor: 12 }.message(),
        "Image height must be a multiple of 12"
    );
    assert_eq!(FontError::EmptyTile.message(), "Tile width and height must be greater than 0");
}

#[test]
fn path_without_stem_falls_back_to_font_and_warns() {
    let out = make_fnt(&two_tiles(), ".png", "out/sheet.fnt", 8, 8, ' ', ".png").unwrap();
    assert!(out.text.starts_with("info face=\"font\" size=8 "));
    assert_eq!(
        out.warning,
        Some("Warning: out/sheet.fnt's `file` field (line 3) will need to be adjusted.".to_string())
    );
    let empty = make_fnt(&two_tiles(), "", "x", 8, 8, ' ', "").unwrap();
    assert!(empty.text.starts_with("info face=\"font\" size=8 "));
    assert!(empty.text.contains("\npage id=0 file=\"\"\n"));
    assert!(empty.warning.is_some());
}

#[test]
fn a_file_named_font_does_not_warn() {
    let out = make_fnt(&two_tiles(), "font.png", "font.fnt", 8, 8, ' ', "font.png").unwrap();
    assert!(out.text.starts_with("info face=\"font\" size=8 "));
    assert_eq!(out.warning, None);
}

#[test]
fn no_warning_on_a_failed_build() {
    let img = sheet(10, 8, &[]);
    assert!(make_fnt(&img, "", "f.fnt", 8, 8, ' ', "").is_err());
}

#[test]
fn descriptor_holds_what_the_text_says() {
    let r = build_descriptor(&two_tiles(), String::from("face"), 8, 8, ' ', String::from("where.png"));
    let d = r.unwrap();
    assert_eq!(d.face, "face");
    assert_eq!(d.size, 8);
    assert_eq!(d.line_height, 8);
    assert_eq!(d.scale_w, 16);
    assert_eq!(d.scale_h, 8);
    assert_eq!(d.file, "where.png");
    assert_eq!(
        d.glyphs,
        vec![
            GlyphRecord { id: 32, x: 0, y: 0, width: 7, height: 8 },
            GlyphRecord { id: 33, x: 8, y: 0, width: 2, height: 8 },
        ]
    );
}

#[test]
fn descriptor_without_glyphs_has_five_lines() {
    let d = FontDescriptor {
        face: String::from("none"),
        size: 4,
        line_height: 6,
        scale_w: 0,
        scale_h: 12,
        file: String::from("n.png"),
        glyphs: Vec::new(),
    };
    let expected = format!(
        "info face=\"none\" size=4{}\n\
         common lineHeight=6 base=0 scaleW=0 scaleH=12 pages=1 packed=0\n\
         page id=0 file=\"n.png\"\n\
         chars count=0\n\
         kernings count=0\n",
        INFO_TAIL
    );
    assert_eq!(d.to_text(), expected);
}

#[test]
fn descriptor_writes_large_numbers_in_full() {
    let d = FontDescriptor {
        face: String::from("big"),
        size: 4294967295,
        line_height: 1000,
        scale_w: 4294967295,
        scale_h: 65536,
        file: String::from("b"),
        glyphs: vec![GlyphRecord { id: 255, x: 4294967295, y: 70000, width: 4294967296, height: 3 }],
    };
    let text = d.to_text();
    let lines: Vec<&str> = text.lines().collect();
    assert_eq!(lines[0], format!("info face=\"big\" size=4294967295{}", INFO_TAIL));
    assert_eq!(
        lines[1],
        "common lineHeight=1000 base=0 scaleW=4294967295 scaleH=65536 pages=1 packed=0"
    );
    assert_eq!(
        lines[4],
        "char id=255 x=4294967295 y=70000 width=4294967296 height=8 xoffset=0 yoffset=0 \
         xadvance=4294967296 page=0 chnl=0"
    );
}

fn options(input: &str, bitmap_location: Option<&str>) -> Cli {
    Cli {
        input: input.to_string(),
        output: "out.fnt".to_string(),
        width: 8,
        height: 8,
        space: 4,
        first: ' ',
        bitmap_location: bitmap_location.map(|s| s.to_string()),
    }
}

#[test]
fn page_file_is_the_bitmap_location_when_given() {
    let out = options("./in/sheet.png", Some("../textures/sheet.png")).run(&two_tiles()).unwrap();
    let lines: Vec<&str> = out.text.lines().collect();
    assert_eq!(lines[0], format!("info face=\"sheet\" size=8{}", INFO_TAIL));
    assert_eq!(lines[2], "page id=0 file=\"../textures/sheet.png\"");
}

#[test]
fn page_file_is_the_input_path_otherwise() {
    let relative = options("./in/sheet.png", None).run(&two_tiles()).unwrap();
    assert_eq!(relative.text.lines().nth(2), Some("page id=0 file=\"./in/sheet.png\""));
    let absolute = options("/srv/in/sheet.png", None).run(&two_tiles()).unwrap();
    assert_eq!(absolute.text.lines().nth(2), Some("page id=0 file=\"/srv/in/sheet.png\""));
}

#[test]
fn run_is_make_fnt_on_the_options() {
    let cli = options("a/sheet.png", None);
    let direct = make_fnt(&two_tiles(), "a/sheet.png", "out.fnt", 8, 8, ' ', "a/sheet.png").unwrap();
    let run = cli.run(&two_tiles()).unwrap();
    assert_eq!(run.text, direct.text);
    assert_eq!(run.warning, direct.warning);
}

#[test]
fn run_reports_a_grid_that_does_not_fit() {
    let mut cli = options("a/sheet.png", None);
    cli.width = 5;
    assert_eq!(
        cli.run(&two_tiles()).err(),
        Some(FontError::DimensionMismatch { axis: Axis::Width, divisor: 5 })
    );
}

#[test]
fn space_option_changes_nothing() {
    let mut wide = options("a/sheet.png", None);
    wide.space = 9;
    let a = wide.run(&two_tiles()).unwrap();
    let b = options("a/sheet.png", None).run(&two_tiles()).unwrap();
    assert_eq!(a.text, b.text);
}
