use pac_tui::pacman::{package_detail_lines, parse_installed_packages, parse_package_line};
use pac_tui::text::split_lines;

#[test]
fn parses_pacman_q_output() {
    let out = "spotify 1:1.2.77.358-1\nsqlite 3.53.2-1\nsqueekboard 1.43.1-5\nsratom 0.6.22-1\nsrt 1.5.5-1\nstarship 1.25.1-1\nstartup-notification 0.12-9\nsteam 1.0.0.85-7\nsteam-devices 1.0.0.85-7\nstremio 4.4.183-1\nstremio-debug 4.4.183-1\n";
    let pkgs = parse_installed_packages(out);
    assert_eq!(pkgs.len(), 11);
    assert_eq!(pkgs[0].name, "spotify");
    assert_eq!(pkgs[0].version, "1:1.2.77.358-1");
    assert_eq!(pkgs[6].name, "startup-notification");
    assert_eq!(pkgs[6].version, "0.12-9");
    assert_eq!(pkgs[10].name, "stremio-debug");
}

#[test]
fn lines_without_space_are_skipped() {
    let pkgs = parse_installed_packages("lonely\nbash 5.2\n\nzsh 5.9-1");
    let names: Vec<&str> = pkgs.iter().map(|p| p.name.as_str()).collect();
    assert_eq!(names, vec!["bash", "zsh"]);
}

#[test]
fn version_keeps_everything_after_first_space() {
    let p = parse_package_line("foo 1.0 extra").unwrap();
    assert_eq!(p.name, "foo");
    assert_eq!(p.version, "1.0 extra");
    let p = parse_package_line(" 1.0").unwrap();
    assert_eq!(p.name, "");
    assert_eq!(p.version, "1.0");
    let p = parse_package_line("foo ").unwrap();
    assert_eq!(p.version, "");
    assert!(parse_package_line("foo").is_none());
    assert!(parse_package_line("").is_none());
}

#[test]
fn crlf_lines_are_parsed() {
    let pkgs = parse_installed_packages("a 1\r\nb 2\r\n");
    assert_eq!(pkgs.len(), 2);
    assert_eq!(pkgs[0].version, "1");
    assert_eq!(pkgs[1].version, "2");
}

#[test]
fn empty_output_gives_no_packages() {
    assert!(parse_installed_packages("").is_empty());
}

#[test]
fn split_lines_matches_std_lines() {
    for text in ["", "\n", "a", "a\n", "a\n\nb", "foo\r\nbar\n\nbaz\r", "x\r", "\r\n", "é ü\nß"] {
        let ours = split_lines(text);
        let std: Vec<String> = text.lines().map(|l| l.to_string()).collect();
        assert_eq!(ours, std, "text {:?}", text);
    }
}

#[test]
fn detail_lines() {
    let lines = package_detail_lines("Name            : bash\nVersion         : 5.2\n");
    assert_eq!(lines, vec!["Name            : bash".to_string(), "Version         : 5.2".to_string()]);
}

#[test]
fn listing_round_trip() {
    let pkgs = [("bash", "5.2.037-1"), ("linux", "6.12.1.arch1-1"), ("odd", "1.0 beta"), ("e", "")];
    let listing: Vec<String> = pkgs.iter().map(|(n, v)| format!("{} {}", n, v)).collect();
    for text in [listing.join("\n"), listing.join("\n") + "\n"] {
        let parsed = parse_installed_packages(&text);
        assert_eq!(parsed.len(), pkgs.len());
        for (p, (n, v)) in parsed.iter().zip(pkgs.iter()) {
            assert_eq!(p.name, *n);
            assert_eq!(p.version, *v);
        }
    }
    assert!(parse_installed_packages("\n").is_empty());
}
