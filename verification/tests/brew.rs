use mac_aid::brew::{get_installed_packages, BrewPackage};

fn names(listing: &str) -> Vec<String> {
    get_installed_packages(listing).into_iter().map(|p| p.name).collect()
}

#[test]
fn one_package_per_line() {
    assert_eq!(names("git\njq\nripgrep\n"), vec!["git", "jq", "ripgrep"]);
    assert_eq!(names("git"), vec!["git"]);
}

#[test]
fn blank_lines_are_skipped_and_names_trimmed() {
    assert_eq!(names("  git  \n\n\t\njq\r\n   \n"), vec!["git", "jq"]);
    assert_eq!(names(""), Vec::<String>::new());
    assert_eq!(names("\n\n \n"), Vec::<String>::new());
    assert_eq!(names("open ssl\n"), vec!["open ssl"]);
}

#[test]
fn the_listing_is_read_as_the_standard_line_reading_would() {
    for listing in ["a\nb", "a\r\nb\r\n", " a \n\n b", "\u{a0}x\u{3000}\n", "x\ry\n"] {
        let expected: Vec<String> = listing
            .lines()
            .filter(|line| !line.trim().is_empty())
            .map(|name| name.trim().to_string())
            .collect();
        assert_eq!(names(listing), expected);
    }
}

#[test]
fn a_package_clone_keeps_the_name() {
    let package = BrewPackage { name: "git".to_string() };
    assert_eq!(package.clone().name, "git");
}
