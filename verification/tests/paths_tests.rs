use pixellift::paths::{frames_dir_for, frames_dir_from_stem, select_frames, upscaled_name_for};

fn strings(v: &[&str]) -> Vec<String> {
    v.iter().map(|s| s.to_string()).collect()
}

#[test]
fn workdir_named_after_output_stem() {
    assert_eq!(frames_dir_for("clip.mp4"), "clip.frames");
    assert_eq!(frames_dir_for("archive.tar.gz"), "archive.tar.frames");
    assert_eq!(frames_dir_for(".hidden"), ".hidden.frames");
    assert_eq!(frames_dir_for("noext"), "noext.frames");
    assert_eq!(frames_dir_for("..a"), "..frames");
    assert_eq!(frames_dir_for("a/.."), "pixellift.frames");
    assert_eq!(frames_dir_for("out/clip_upscaled.mp4"), "clip_upscaled.frames");
    assert_eq!(frames_dir_for("/home/u/Videos/a.b.c"), "a.b.frames");
    assert_eq!(frames_dir_for("./x"), "x.frames");
    assert_eq!(frames_dir_for("."), "pixellift.frames");
    assert_eq!(frames_dir_for(".."), "pixellift.frames");
    assert_eq!(frames_dir_for("/.."), "pixellift.frames");
}

#[test]
fn workdir_name_ignores_trailing_separators() {
    assert_eq!(frames_dir_for("clip.mp4/"), "clip.frames");
    assert_eq!(frames_dir_for("out/b.mkv/."), "b.frames");
    assert_eq!(frames_dir_for("x.tar.gz//./"), "x.tar.frames");
    assert_eq!(frames_dir_for("/"), "pixellift.frames");
    assert_eq!(frames_dir_for("./"), "pixellift.frames");
    assert_eq!(frames_dir_for("a/../"), "pixellift.frames");
    assert_eq!(frames_dir_for("/."), "pixellift.frames");
}

#[test]
fn default_output_name() {
    assert_eq!(upscaled_name_for(Some("clip".to_string())), "clip_upscaled.mp4");
    assert_eq!(upscaled_name_for(None), "output_upscaled.mp4");
}

#[test]
fn default_workdir_name() {
    assert_eq!(frames_dir_for("clip_4k.mp4"), "clip_4k.frames");
    assert_eq!(frames_dir_for("out/movie.mkv"), "movie.frames");
    assert_eq!(frames_dir_for(""), "pixellift.frames");
    assert_eq!(frames_dir_from_stem(None), "pixellift.frames");
}

#[test]
fn frames_are_png_files_in_order() {
    let names = strings(&["000002.png", "notes.txt", "000000.png", ".png", "000001.png", "x.PNG", "png"]);
    assert_eq!(select_frames(names), strings(&["000000.png", "000001.png", "000002.png"]));
}

#[test]
fn frames_sort_by_code_point() {
    let names = strings(&["b.png", "a.png", "B.png", "ab.png", "a.png.png", "é.png"]);
    let mut expected = strings(&["a.png", "a.png.png", "ab.png", "b.png", "B.png", "é.png"]);
    expected.sort();
    assert_eq!(select_frames(names), expected);
}

#[test]
fn no_frames_in_empty_listing() {
    assert_eq!(select_frames(Vec::new()), Vec::<String>::new());
}
