use cc_downloader::config::NamingMode;
use cc_downloader::digits::{decimal_string, parse_u64};
use cc_downloader::error::DownloadError;
use cc_downloader::manifest::Locator;
use cc_downloader::resolve::{plan_task, resolve_name};

fn locator(index: usize, url: &str) -> Locator {
    Locator {
        index,
        url: url.to_string(),
    }
}

#[test]
fn files_only_takes_final_segment() {
    let loc = locator(
        0,
        "https://data.commoncrawl.org/crawl-data/CC-MAIN-2021-04/wet.paths.gz",
    );
    let plan = plan_task(&loc, NamingMode::FilesOnly).unwrap();
    assert_eq!(plan.dest_name, "wet.paths.gz");
    assert!(plan.make_dirs);
    assert_eq!(plan.ordinal, 0);
    assert_eq!(plan.url, loc.url);
}

#[test]
fn full_path_mirrors_hierarchy() {
    let loc = locator(
        0,
        "https://data.commoncrawl.org/crawl-data/CC-MAIN-2021-04/wet.paths.gz",
    );
    let plan = plan_task(&loc, NamingMode::FullPath).unwrap();
    assert_eq!(plan.dest_name, "crawl-data/CC-MAIN-2021-04/wet.paths.gz");
    assert!(plan.make_dirs);
}

#[test]
fn numbered_names_follow_manifest_order() {
    let urls = [
        "https://data.commoncrawl.org/crawl-data/a.wet.gz",
        "https://data.commoncrawl.org/crawl-data/b.wet.gz",
        "https://data.commoncrawl.org/crawl-data/c.wet.gz",
    ];
    let mut names = Vec::new();
    for (i, url) in urls.iter().enumerate() {
        let plan = plan_task(&locator(i, url), NamingMode::Numbered).unwrap();
        assert!(!plan.make_dirs);
        names.push(plan.dest_name);
    }
    assert_eq!(names, vec!["0.txt.gz", "1.txt.gz", "2.txt.gz"]);
    for i in 0..names.len() {
        for j in 0..names.len() {
            if i != j {
                assert_ne!(names[i], names[j]);
            }
        }
    }
}

#[test]
fn resolve_name_exact_cases() {
    let path = "/crawl-data/CC-MAIN-2021-04/wet.paths.gz";
    assert_eq!(
        resolve_name(path, 0, NamingMode::FilesOnly),
        "wet.paths.gz"
    );
    assert_eq!(
        resolve_name(path, 0, NamingMode::FullPath),
        "crawl-data/CC-MAIN-2021-04/wet.paths.gz"
    );
    assert_eq!(resolve_name(path, 7, NamingMode::Numbered), "7.txt.gz");
    assert_eq!(resolve_name(path, 905, NamingMode::Numbered), "905.txt.gz");
}

#[test]
fn resolve_name_falls_back_without_usable_segment() {
    assert_eq!(resolve_name("", 0, NamingMode::FilesOnly), "file.download");
    assert_eq!(resolve_name("/", 0, NamingMode::FilesOnly), "file.download");
    assert_eq!(
        resolve_name("/dir/", 0, NamingMode::FilesOnly),
        "file.download"
    );
    assert_eq!(resolve_name("/", 0, NamingMode::FullPath), "file.download");
    assert_eq!(
        resolve_name("noslash", 0, NamingMode::FullPath),
        "file.download"
    );
}

#[test]
fn plan_task_rejects_malformed_locator() {
    let loc = locator(3, "not a url at all");
    let err = plan_task(&loc, NamingMode::FullPath).unwrap_err();
    assert!(matches!(err, DownloadError::UrlParse(_)));
}

#[test]
fn decimal_rendering_exact() {
    assert_eq!(decimal_string(0), "0");
    assert_eq!(decimal_string(10), "10");
    assert_eq!(decimal_string(905), "905");
    assert_eq!(decimal_string(u64::MAX), "18446744073709551615");
}

#[test]
fn parse_u64_exact() {
    assert_eq!(parse_u64("0"), Some(0));
    assert_eq!(parse_u64("123"), Some(123));
    assert_eq!(parse_u64("007"), Some(7));
    assert_eq!(parse_u64("18446744073709551615"), Some(u64::MAX));
    assert_eq!(parse_u64("18446744073709551616"), None);
    assert_eq!(parse_u64(""), None);
    assert_eq!(parse_u64("12a"), None);
    assert_eq!(parse_u64("-1"), None);
    assert_eq!(parse_u64("+1"), None);
}
