use wallpaper_ctl::helpers::WideString;
use wallpaper_ctl::monitor::Monitor;
use wallpaper_ctl::slideshow::{
    advance_slideshow, get_slideshow_directory, interval_remaining_ticks,
    interval_whole_minutes, is_slideshow, is_slideshow_shuffle, show_slideshow_details,
    slideshow, Advance, Direction, PathProbe, SlideshowRequest, DSO_SHUFFLEIMAGES, DSS_ENABLED,
    DSS_SLIDESHOW,
};

fn wide(text: &str) -> WideString {
    WideString { units: text.encode_utf16().collect() }
}

fn args(tokens: &[&str]) -> Vec<String> {
    tokens.iter().map(|t| String::from(*t)).collect()
}

fn monitor(id: &str, wallpaper: &str) -> Monitor {
    Monitor { index: 0, monitor_id: wide(id), wallpaper: wide(wallpaper), is_attached: true }
}

fn probe_of_file(parent: &str) -> PathProbe {
    PathProbe { exists: true, is_file: true, parent: Some(String::from(parent)), parent_is_dir: true }
}

fn minutes(tick: u32) -> f32 {
    interval_whole_minutes(tick) as f32 + interval_remaining_ticks(tick) as f32 / 60000f32
}

#[test]
fn slideshow_needs_both_state_bits_and_no_other() {
    assert!(is_slideshow(3));
    assert!(is_slideshow(DSS_ENABLED + DSS_SLIDESHOW));
    assert!(!is_slideshow(0));
    assert!(!is_slideshow(DSS_ENABLED));
    assert!(!is_slideshow(DSS_SLIDESHOW));
    assert!(!is_slideshow(4));
    assert!(!is_slideshow(7));
    assert!(!is_slideshow(-1));
}

#[test]
fn shuffle_is_equality_not_a_bit_test() {
    assert!(is_slideshow_shuffle(DSO_SHUFFLEIMAGES));
    assert!(is_slideshow_shuffle(1));
    assert!(!is_slideshow_shuffle(0));
    assert!(!is_slideshow_shuffle(DSO_SHUFFLEIMAGES | 2));
    assert!(!is_slideshow_shuffle(3));
    assert!(!is_slideshow_shuffle(-1));
}

#[test]
fn interval_of_one_minute() {
    assert_eq!(interval_whole_minutes(60000), 1);
    assert_eq!(interval_remaining_ticks(60000), 0);
    assert_eq!(minutes(60000), 1.0);
    assert_eq!((60000u32 as f32 / 1000f32) / 60f32, 1.0);
}

#[test]
fn interval_parts_add_up() {
    for tick in [0u32, 1, 59999, 60001, 90000, 1800000, 86400000, u32::MAX] {
        let whole = interval_whole_minutes(tick);
        let rest = interval_remaining_ticks(tick);
        assert!(rest < 60000);
        assert_eq!(whole as u64 * 60000 + rest as u64, tick as u64);
    }
    assert_eq!(interval_whole_minutes(90000), 1);
    assert_eq!(interval_remaining_ticks(90000), 30000);
    assert_eq!(minutes(90000), 1.5);
    assert_eq!(interval_whole_minutes(1800000), 30);
    assert_eq!(interval_whole_minutes(59999), 0);
}

#[test]
fn advance_is_global_and_forward() {
    assert_eq!(advance_slideshow(), Advance { monitor: None, direction: Direction::Forward });
}

#[test]
fn slideshow_command_outside_slideshow_does_nothing() {
    assert_eq!(slideshow(0, &args(&["slideshow"])), SlideshowRequest::NotSlideshow);
    assert_eq!(slideshow(1, &args(&["slideshow", "advance"])), SlideshowRequest::NotSlideshow);
    assert_eq!(slideshow(2, &args(&["slideshow"])), SlideshowRequest::NotSlideshow);
    assert_eq!(slideshow(7, &args(&["slideshow", "advance"])), SlideshowRequest::NotSlideshow);
}

#[test]
fn slideshow_command_in_slideshow() {
    assert_eq!(slideshow(3, &args(&["slideshow"])), SlideshowRequest::Details);
    assert_eq!(slideshow(3, &args(&[])), SlideshowRequest::Details);
    assert_eq!(slideshow(3, &args(&["slideshow", "next"])), SlideshowRequest::Details);
    assert_eq!(slideshow(3, &args(&["slideshow", "Advance"])), SlideshowRequest::Details);
    assert_eq!(
        slideshow(3, &args(&["slideshow", "advance"])),
        SlideshowRequest::Advance(Advance { monitor: None, direction: Direction::Forward })
    );
    assert_eq!(
        slideshow(3, &args(&["slideshow", "advance", "1"])),
        SlideshowRequest::Advance(Advance { monitor: None, direction: Direction::Forward })
    );
}

#[test]
fn slideshow_directory_is_parent_of_wallpaper_file() {
    let m = monitor("m0", "C:\\walls\\a.png");
    assert_eq!(get_slideshow_directory(&m, &probe_of_file("C:\\walls")), Some(String::from("C:\\walls")));
}

#[test]
fn slideshow_directory_needs_existing_file_and_directory() {
    let m = monitor("m0", "C:\\walls\\a.png");
    let good = probe_of_file("C:\\walls");
    assert_eq!(get_slideshow_directory(&m, &PathProbe { exists: false, ..probe_of_file("C:\\walls") }), None);
    assert_eq!(get_slideshow_directory(&m, &PathProbe { is_file: false, ..probe_of_file("C:\\walls") }), None);
    assert_eq!(get_slideshow_directory(&m, &PathProbe { parent: None, ..probe_of_file("C:\\walls") }), None);
    assert_eq!(
        get_slideshow_directory(&m, &PathProbe { parent_is_dir: false, ..probe_of_file("C:\\walls") }),
        None
    );
    let unreadable = Monitor { wallpaper: WideString { units: vec![0xDFFF] }, ..monitor("m0", "") };
    assert_eq!(get_slideshow_directory(&unreadable, &good), None);
}

#[test]
fn details_with_directory() {
    let monitors = vec![monitor("m0", "C:\\walls\\a.png"), monitor("m1", "D:\\other\\b.png")];
    let details = show_slideshow_details(1, 60000, &monitors, &probe_of_file("C:\\walls"));
    assert!(details.shuffle);
    assert_eq!(details.interval_ticks, 60000);
    assert_eq!(details.directory, Ok(String::from("C:\\walls")));
}

#[test]
fn details_without_directory_name_the_first_monitor() {
    let monitors = vec![monitor("\\\\?\\DISPLAY#A", "C:\\gone.png"), monitor("m1", "D:\\b.png")];
    let probe = PathProbe { exists: false, is_file: false, parent: Some(String::from("C:\\")), parent_is_dir: true };
    let details = show_slideshow_details(3, 1800000, &monitors, &probe);
    assert!(!details.shuffle);
    assert_eq!(details.interval_ticks, 1800000);
    assert_eq!(
        details.directory,
        Err(String::from("failed to get slideshow directory for '\\\\?\\DISPLAY#A'"))
    );
}
