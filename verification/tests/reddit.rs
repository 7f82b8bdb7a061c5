use toolbelt::reddit::cli::{output_dir, top_query, verbosity, Cli, Time, Verbosity};
use toolbelt::reddit::data::{RedditData, TopData, TopDataItem, Wallpaper};
use toolbelt::reddit::files::{file_name_for_format, get_file_name, plan_wallpapers, FileNameError};

#[test]
fn time_names() {
    let all = [Time::Hour, Time::Day, Time::Week, Time::Month, Time::Year, Time::All];
    let names: Vec<&str> = all.iter().map(|t| t.name()).collect();
    assert_eq!(names, vec!["hour", "day", "week", "month", "year", "all"]);
    assert!(Time::Hour < Time::All);
}

#[test]
fn verbosity_levels() {
    assert_eq!(verbosity(0), Verbosity::Error);
    assert_eq!(verbosity(1), Verbosity::Error);
    assert_eq!(verbosity(2), Verbosity::Warn);
    assert_eq!(verbosity(3), Verbosity::Info);
    assert_eq!(verbosity(4), Verbosity::Debug);
    assert_eq!(verbosity(5), Verbosity::Trace);
    assert_eq!(verbosity(6), Verbosity::Error);
    assert_eq!(verbosity(255), Verbosity::Error);
}

#[test]
fn output_directory() {
    assert_eq!(output_dir(&None), "Pictures/Wallpapers");
    assert_eq!(output_dir(&Some("walls".to_string())), "walls");
}

fn pairs(q: Vec<(String, String)>) -> Vec<(String, String)> {
    q
}

#[test]
fn listing_query() {
    assert!(top_query(None, None).is_empty());
    assert_eq!(pairs(top_query(Some(25), None)), vec![("limit".to_string(), "25".to_string())]);
    assert_eq!(pairs(top_query(None, Some(Time::Week))), vec![("t".to_string(), "week".to_string())]);
    assert_eq!(
        pairs(top_query(Some(1), Some(Time::All))),
        vec![("limit".to_string(), "1".to_string()), ("t".to_string(), "all".to_string())]
    );
    assert_eq!(top_query(Some(99), None)[0].1, "99");
    assert_eq!(top_query(Some(255), None)[0].1, "255");
    let cli = Cli { output: None, debug: 3, limit: Some(10), t: Some(Time::Day) };
    assert_eq!(top_query(cli.limit, cli.t).len(), 2);
}

#[test]
fn file_names_from_addresses() {
    assert_eq!(get_file_name("https://i.redd.it/abc123.png", "abc123").unwrap(), "wallpapers-abc123.png");
    assert_eq!(get_file_name("https://i.redd.it/xyz.jpg", "xyz").unwrap(), "wallpapers-xyz.jpg");
    assert_eq!(get_file_name("https://i.redd.it/xyz.JPEG", "q").unwrap(), "wallpapers-q.jpg");
    match get_file_name("https://i.redd.it/anim.gif", "anim") {
        Err(e) => {
            assert!(matches!(&e, FileNameError::Unsupported(n) if n == "Gif"));
            assert_eq!(e.message(), "Not supported file extension: Gif)");
        }
        Ok(_) => panic!("gif is not supported"),
    }
    match get_file_name("https://www.reddit.com/gallery/abc", "abc") {
        Err(e) => {
            assert_eq!(e.message(), "File extension not determined for url: https://www.reddit.com/gallery/abc");
        }
        Ok(_) => panic!("no extension"),
    }
    assert!(matches!(
        get_file_name("https://i.redd.it/file.xyz", "f"),
        Err(FileNameError::Undetermined(u)) if u == "https://i.redd.it/file.xyz"
    ));
}

#[test]
fn file_names_from_formats() {
    assert_eq!(file_name_for_format("u", "id", Some("Png")).unwrap(), "wallpapers-id.png");
    assert_eq!(file_name_for_format("u", "id", Some("Jpeg")).unwrap(), "wallpapers-id.jpg");
    let e = file_name_for_format("u", "id", Some("WebP")).unwrap_err();
    assert_eq!(e.message(), "Not supported file extension: WebP)");
    let e = file_name_for_format("u", "id", None).unwrap_err();
    assert_eq!(e.message(), "File extension not determined for url: u");
}

#[test]
fn plans_follow_the_listing() {
    let item = |id: &str, url: &str| TopDataItem {
        data: Wallpaper { id: id.to_string(), url: url.to_string() },
    };
    let data = RedditData {
        data: TopData {
            children: vec![
                item("a", "https://i.redd.it/a.png"),
                item("b", "https://i.redd.it/b.gif"),
                item("c", "https://i.redd.it/c.jpeg"),
            ],
        },
    };
    let plans = plan_wallpapers(&data);
    assert_eq!(plans.len(), 3);
    assert_eq!(plans[0].id, "a");
    assert_eq!(plans[0].url, "https://i.redd.it/a.png");
    assert_eq!(plans[0].file_name.as_ref().unwrap(), "wallpapers-a.png");
    assert!(plans[1].file_name.is_err());
    assert_eq!(plans[2].file_name.as_ref().unwrap(), "wallpapers-c.jpg");
    let empty = RedditData { data: TopData { children: vec![] } };
    assert!(plan_wallpapers(&empty).is_empty());
}
