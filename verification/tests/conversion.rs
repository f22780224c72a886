use heic_convert::convert::{
    convert_one, output_extension, Conversion, ConversionAction, ConversionEvent,
};
use heic_convert::search::{
    output_file_name, unique_output_path, OutputSearch, SearchAction, LAST_ATTEMPT,
};

fn s(x: &str) -> String {
    x.to_string()
}

#[test]
fn extension_for_each_format() {
    assert_eq!(output_extension("jpeg"), Ok(s("jpg")));
    assert_eq!(output_extension("png"), Ok(s("png")));
    assert_eq!(output_extension("gif"), Err(s("Unsupported format: gif")));
    assert_eq!(output_extension("JPEG"), Err(s("Unsupported format: JPEG")));
    assert_eq!(output_extension(""), Err(s("Unsupported format: ")));
}

#[test]
fn file_names_in_order() {
    assert_eq!(output_file_name("IMG_0001", "jpg", 0), "IMG_0001.jpg");
    assert_eq!(output_file_name("IMG_0001", "jpg", 1), "IMG_0001 (1).jpg");
    assert_eq!(output_file_name("IMG_0001", "png", 2), "IMG_0001 (2).png");
    assert_eq!(output_file_name("a b", "jpg", 999), "a b (999).jpg");
}

#[test]
fn search_next_to_input_takes_first_free_name() {
    let mut search = unique_output_path("/photos/IMG.heic", "jpg", None);
    assert_eq!(search.action(), SearchAction::CheckDir(s("/photos")));
    search.resume(true);
    assert_eq!(search.action(), SearchAction::CheckExists(s("/photos/IMG.jpg")));
    search.resume(true);
    assert_eq!(search.action(), SearchAction::CheckExists(s("/photos/IMG (1).jpg")));
    search.resume(true);
    assert_eq!(search.action(), SearchAction::CheckExists(s("/photos/IMG (2).jpg")));
    search.resume(false);
    assert!(search.is_finished());
    assert_eq!(search.action(), SearchAction::Found(Ok(s("/photos/IMG (2).jpg"))));
}

#[test]
fn search_in_chosen_folder() {
    let mut search = unique_output_path("/photos/IMG.HEIC", "png", Some("/out"));
    assert_eq!(search.action(), SearchAction::CheckDir(s("/out")));
    search.resume(true);
    assert_eq!(search.action(), SearchAction::CheckExists(s("/out/IMG.png")));
    search.resume(false);
    assert_eq!(search.action(), SearchAction::Found(Ok(s("/out/IMG.png"))));
}

#[test]
fn search_bare_file_name_uses_current_folder() {
    let mut search = unique_output_path("IMG.heic", "jpg", None);
    assert_eq!(search.action(), SearchAction::CheckDir(s(".")));
    search.resume(true);
    assert_eq!(search.action(), SearchAction::CheckExists(s("./IMG.jpg")));
    search.resume(false);
    assert_eq!(search.action(), SearchAction::Found(Ok(s("./IMG.jpg"))));
}

#[test]
fn search_relative_input_in_subfolder() {
    let mut search = unique_output_path("pics/IMG.heic", "png", None);
    assert_eq!(search.action(), SearchAction::CheckDir(s("pics")));
    search.resume(true);
    assert_eq!(search.action(), SearchAction::CheckExists(s("pics/IMG.png")));
}

#[test]
fn chosen_empty_folder_is_not_replaced() {
    let mut search = unique_output_path("IMG.heic", "jpg", Some(""));
    assert_eq!(search.action(), SearchAction::CheckDir(s("")));
    search.resume(false);
    assert_eq!(search.action(), SearchAction::Found(Err(s("Output folder does not exist: "))));
}

#[test]
fn search_missing_folder() {
    let mut search = unique_output_path("/photos/IMG.heic", "jpg", Some("/nowhere"));
    search.resume(false);
    assert_eq!(
        search.action(),
        SearchAction::Found(Err(s("Output folder does not exist: /nowhere")))
    );
}

#[test]
fn search_without_folder() {
    let search = unique_output_path("", "jpg", None);
    assert!(search.is_finished());
    assert_eq!(search.action(), SearchAction::Found(Err(s("Cannot determine output folder"))));
    let search = unique_output_path("/", "jpg", None);
    assert_eq!(search.action(), SearchAction::Found(Err(s("Cannot determine output folder"))));
}

#[test]
fn search_without_file_name() {
    let mut search = unique_output_path("/photos/..", "jpg", None);
    assert_eq!(search.action(), SearchAction::CheckDir(s("/photos")));
    search.resume(true);
    assert_eq!(search.action(), SearchAction::Found(Err(s("Cannot determine file name"))));
}

#[test]
fn search_gives_up_after_999() {
    let mut search = unique_output_path("/p/x.heic", "jpg", None);
    search.resume(true);
    let mut probes = Vec::new();
    while let SearchAction::CheckExists(p) = search.action() {
        probes.push(p);
        search.resume(true);
    }
    assert_eq!(probes.len(), 1 + LAST_ATTEMPT as usize);
    assert_eq!(probes[0], "/p/x.jpg");
    assert_eq!(probes[999], "/p/x (999).jpg");
    let mut sorted = probes.clone();
    sorted.sort();
    sorted.dedup();
    assert_eq!(sorted.len(), probes.len());
    assert_eq!(
        search.action(),
        SearchAction::Found(Err(s("Could not find a free output file name")))
    );
}

#[test]
fn finished_search_stays_finished() {
    let mut search = OutputSearch::Finished(Ok(s("/a.jpg")));
    search.resume(true);
    assert_eq!(search, OutputSearch::Finished(Ok(s("/a.jpg"))));
}

#[test]
fn conversion_full_run() {
    let mut c = convert_one("/p/a.heic", "png", 85, None);
    assert_eq!(c.action(), ConversionAction::CheckIsFile(s("/p/a.heic")));
    c.resume(ConversionEvent::Answer(true));
    assert_eq!(c.action(), ConversionAction::CheckIsDir(s("/p")));
    c.resume(ConversionEvent::Answer(true));
    assert_eq!(c.action(), ConversionAction::CheckExists(s("/p/a.png")));
    c.resume(ConversionEvent::Answer(true));
    assert_eq!(c.action(), ConversionAction::CheckExists(s("/p/a (1).png")));
    c.resume(ConversionEvent::Answer(false));
    assert_eq!(
        c.action(),
        ConversionAction::Convert {
            input: s("/p/a.heic"),
            output: s("/p/a (1).png"),
            format: s("png"),
            quality: 85
        }
    );
    c.resume(ConversionEvent::Converted(Ok(())));
    assert_eq!(
        c.action(),
        ConversionAction::CopyModifiedTime { from: s("/p/a.heic"), to: s("/p/a (1).png") }
    );
    c.resume(ConversionEvent::TimeCopied);
    assert!(c.is_finished());
    assert_eq!(c.action(), ConversionAction::Done(Ok(s("/p/a (1).png"))));
}

#[test]
fn conversion_missing_input() {
    let mut c = convert_one("/p/none.heic", "jpeg", 85, None);
    c.resume(ConversionEvent::Answer(false));
    assert_eq!(c.action(), ConversionAction::Done(Err(s("File not found"))));
}

#[test]
fn conversion_unsupported_format() {
    let mut c = convert_one("/p/a.heic", "webp", 85, Some("/out"));
    c.resume(ConversionEvent::Answer(true));
    assert_eq!(c.action(), ConversionAction::Done(Err(s("Unsupported format: webp"))));
}

#[test]
fn conversion_with_out_dir_and_jpeg() {
    let mut c = convert_one("/p/a.heic", "jpeg", 40, Some("/out"));
    c.resume(ConversionEvent::Answer(true));
    assert_eq!(c.action(), ConversionAction::CheckIsDir(s("/out")));
    c.resume(ConversionEvent::Answer(true));
    assert_eq!(c.action(), ConversionAction::CheckExists(s("/out/a.jpg")));
    c.resume(ConversionEvent::Answer(false));
    assert_eq!(
        c.action(),
        ConversionAction::Convert {
            input: s("/p/a.heic"),
            output: s("/out/a.jpg"),
            format: s("jpeg"),
            quality: 40
        }
    );
}

#[test]
fn conversion_folder_missing() {
    let mut c = convert_one("/p/a.heic", "jpeg", 85, Some("/gone"));
    c.resume(ConversionEvent::Answer(true));
    c.resume(ConversionEvent::Answer(false));
    assert_eq!(c.action(), ConversionAction::Done(Err(s("Output folder does not exist: /gone"))));
}

#[test]
fn conversion_converter_error_is_reported() {
    let mut c = convert_one("/p/a.heic", "jpeg", 85, None);
    c.resume(ConversionEvent::Answer(true));
    c.resume(ConversionEvent::Answer(true));
    c.resume(ConversionEvent::Answer(false));
    c.resume(ConversionEvent::Converted(Err(s("This platform is not supported yet"))));
    assert_eq!(
        c.action(),
        ConversionAction::Done(Err(s("This platform is not supported yet")))
    );
}

#[test]
fn conversion_ignores_unexpected_events() {
    let mut c = convert_one("/p/a.heic", "jpeg", 85, None);
    c.resume(ConversionEvent::TimeCopied);
    c.resume(ConversionEvent::Converted(Ok(())));
    assert_eq!(c.action(), ConversionAction::CheckIsFile(s("/p/a.heic")));
    let mut done = Conversion::Finished(Err(s("x")));
    done.resume(ConversionEvent::Answer(true));
    assert_eq!(done, Conversion::Finished(Err(s("x"))));
}
