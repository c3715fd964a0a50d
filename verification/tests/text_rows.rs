use sim_cleaner::device::Device;
use sim_cleaner::paths::{device_directory, device_directory_under, locate_device_directory};
use sim_cleaner::prompt::{recreate_prompt, selection_prompt};
use sim_cleaner::sizes::{size_from_output, size_step, SizeStep};
use sim_cleaner::table::{listing_row, menu_row, progress_line};
use sim_cleaner::text::{pad_right, runtime_suffix_of};

fn phone() -> Device {
    Device {
        name: "iPhone 15".to_string(),
        state: "Shutdown".to_string(),
        udid: "AAAA-1111".to_string(),
        device_type: "com.apple.CoreSimulator.SimDeviceType.iPhone-15".to_string(),
        runtime: "com.apple.CoreSimulator.SimRuntime.iOS-17-0".to_string(),
    }
}

#[test]
fn suffix_of_dotted_runtime_is_text_after_last_dot() {
    assert_eq!(
        runtime_suffix_of("com.apple.CoreSimulator.SimRuntime.iOS-17-0"),
        "iOS-17-0"
    );
    assert_eq!(runtime_suffix_of("a.b"), "b");
}

#[test]
fn suffix_of_dotless_runtime_is_whole_text() {
    assert_eq!(runtime_suffix_of("iOS-17-0"), "iOS-17-0");
    assert_eq!(runtime_suffix_of(""), "");
}

#[test]
fn suffix_of_runtime_ending_in_dot_is_empty() {
    assert_eq!(runtime_suffix_of("com.apple."), "");
    assert_eq!(runtime_suffix_of("."), "");
}

#[test]
fn suffix_counts_characters_not_bytes() {
    assert_eq!(runtime_suffix_of("späß.émoji-1"), "émoji-1");
    assert_eq!(runtime_suffix_of("ü.ö.ä"), "ä");
}

#[test]
fn pad_right_fills_with_spaces() {
    assert_eq!(pad_right("ab", 5), "ab   ");
    assert_eq!(pad_right("", 3), "   ");
    assert_eq!(pad_right("abc", 3), "abc");
}

#[test]
fn pad_right_keeps_longer_text() {
    assert_eq!(pad_right("abcdef", 3), "abcdef");
    assert_eq!(pad_right("abc", 0), "abc");
}

#[test]
fn pad_right_agrees_with_std_formatting() {
    for text in ["", "x", "iPhone 15", "ünïcödé", "a name that is longer than thirty characters"] {
        assert_eq!(pad_right(text, 30), format!("{:<30}", text));
        assert_eq!(pad_right(text, 10), format!("{:<10}", text));
    }
}

#[test]
fn menu_row_has_four_columns() {
    let row = menu_row(&phone(), "1.2G");
    assert_eq!(
        row,
        "iPhone 15                      iOS-17-0        Shutdown   1.2G"
    );
    assert_eq!(
        row,
        format!("{:<30} {:<15} {:<10} {}", "iPhone 15", "iOS-17-0", "Shutdown", "1.2G")
    );
}

#[test]
fn listing_row_has_three_columns() {
    let row = listing_row(&phone(), "Directory not found");
    assert_eq!(
        row,
        "iPhone 15                      iOS-17-0   Directory not found"
    );
    assert_eq!(
        row,
        format!("{:<30} {:<10} {}", "iPhone 15", "iOS-17-0", "Directory not found")
    );
}

#[test]
fn progress_line_names_device_and_runtime() {
    assert_eq!(progress_line(&phone()), "  iPhone 15 [iOS-17-0]...");
}

#[test]
fn duplicate_keeps_every_field() {
    let device = phone();
    assert_eq!(device.duplicate(), device);
}

#[test]
fn absent_image_is_reported_without_measuring() {
    assert_eq!(
        size_step("AAAA-1111", false),
        SizeStep::Known("Directory not found".to_string())
    );
}

#[test]
fn present_image_is_measured_with_disk_usage() {
    assert_eq!(
        size_step("AAAA-1111", true),
        SizeStep::Measure(vec![
            "du".to_string(),
            "-sh".to_string(),
            "AAAA-1111".to_string()
        ])
    );
}

#[test]
fn size_is_first_field_of_output() {
    assert_eq!(size_from_output("4.0K\tAAAA-1111\n"), "4.0K");
    assert_eq!(size_from_output("1.2G\n"), "1.2G");
    assert_eq!(size_from_output("812M"), "812M");
    assert_eq!(size_from_output(""), "");
    assert_eq!(size_from_output("\tAAAA"), "");
}

#[test]
fn device_directory_is_under_home() {
    assert_eq!(
        device_directory("/Users/me"),
        "/Users/me/Library/Developer/CoreSimulator/Devices/"
    );
}

#[test]
fn device_directory_adds_no_second_separator() {
    assert_eq!(
        device_directory("/Users/me/"),
        "/Users/me/Library/Developer/CoreSimulator/Devices/"
    );
    assert_eq!(device_directory("/"), "/Library/Developer/CoreSimulator/Devices/");
    assert_eq!(device_directory(""), "Library/Developer/CoreSimulator/Devices/");
}

#[test]
fn device_directory_agrees_with_path_join() {
    for home in ["/Users/me", "/Users/me/", "/", "", "relative/home"] {
        let joined = std::path::Path::new(home).join("Library/Developer/CoreSimulator/Devices/");
        assert_eq!(device_directory(home), joined.to_str().unwrap());
    }
}

#[test]
fn unknown_home_has_no_device_directory() {
    assert_eq!(device_directory_under(None), None);
}

#[test]
fn known_home_has_its_device_directory() {
    assert_eq!(
        device_directory_under(Some("/Users/me".to_string())),
        Some("/Users/me/Library/Developer/CoreSimulator/Devices/".to_string())
    );
    assert_eq!(
        device_directory_under(Some("/".to_string())),
        Some("/Library/Developer/CoreSimulator/Devices/".to_string())
    );
}

#[test]
fn located_directory_ends_in_device_store() {
    if let Some(directory) = locate_device_directory() {
        assert!(directory.ends_with("Library/Developer/CoreSimulator/Devices/"));
    }
}

#[test]
fn selection_prompt_is_blue() {
    assert_eq!(
        selection_prompt(),
        "\u{1b}[34m[↑↓] navigate, [space] un/select, [enter] submit, [q] quit\u{1b}[39m"
    );
}

#[test]
fn recreate_prompt_explains_the_effect() {
    assert_eq!(
        recreate_prompt(),
        "Would you like to recreate these devices?\nThis will restore them to their default state."
    );
}
