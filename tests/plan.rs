use pixiv_dl::error::DownloadError;
use pixiv_dl::naming::{archive_path, artwork_dir, decimal, page_path, page_url, thumbnail_path};
use pixiv_dl::plan::{plan_author, plan_work, Work};
use pixiv_dl::types::{Illust, Urls, User};

fn illust(page_count: u32, illust_type: u32) -> Illust {
    Illust {
        page_count,
        id: "12345".to_string(),
        urls: Urls { original: "https://i.example/img/2020/12345_p0.png".to_string() },
        illust_type,
    }
}

#[test]
fn decimal_writes_digits() {
    assert_eq!(decimal(0), "0");
    assert_eq!(decimal(7), "7");
    assert_eq!(decimal(10), "10");
    assert_eq!(decimal(907), "907");
    assert_eq!(decimal(u32::MAX), "4294967295");
}

#[test]
fn dir_standalone_and_under_author() {
    assert_eq!(artwork_dir("12345", &None), "i_12345");
    assert_eq!(artwork_dir("12345", &Some("777".to_string())), "u_777/i_12345");
}

#[test]
fn file_names() {
    assert_eq!(page_url("https://h/img", "9", 12, "jpg"), "https://h/img/9_p12.jpg");
    assert_eq!(page_path("i_9", 12, "jpg"), "i_9/p12.jpg");
    assert_eq!(thumbnail_path("i_9", "gif"), "i_9/thumbnail.gif");
    assert_eq!(archive_path("i_9", "9"), "i_9/9_ugoira1920x1080.zip");
}

#[test]
fn static_artwork_gives_one_task_per_page() {
    let work = plan_work(&illust(3, 0), "12345", "i_12345").unwrap();
    match work {
        Work::Pages(tasks) => {
            assert_eq!(tasks.len(), 3);
            for (p, t) in tasks.iter().enumerate() {
                assert_eq!(t.url, format!("https://i.example/img/2020/12345_p{p}.png"));
                assert_eq!(t.path, format!("i_12345/p{p}.png"));
            }
        }
        _ => panic!("expected pages"),
    }
}

#[test]
fn static_artwork_without_pages_gives_no_task() {
    match plan_work(&illust(0, 0), "12345", "i_12345").unwrap() {
        Work::Pages(tasks) => assert!(tasks.is_empty()),
        _ => panic!("expected pages"),
    }
}

#[test]
fn animated_artwork_gives_thumbnail_and_archive() {
    match plan_work(&illust(1, 2), "12345", "u_1/i_12345").unwrap() {
        Work::Animated { thumbnail, archive_path } => {
            assert_eq!(thumbnail.url, "https://i.example/img/2020/12345_p0.png");
            assert_eq!(thumbnail.path, "u_1/i_12345/thumbnail.png");
            assert_eq!(archive_path, "u_1/i_12345/12345_ugoira1920x1080.zip");
        }
        _ => panic!("expected animated"),
    }
}

#[test]
fn unsupported_type_is_refused() {
    for t in [1u32, 3, 99] {
        match plan_work(&illust(4, t), "12345", "i_12345") {
            Err(DownloadError::UnsupportedArtworkType(got)) => assert_eq!(got, t),
            other => panic!("unexpected {other:?}"),
        }
    }
}

#[test]
fn author_gives_one_job_per_artwork() {
    let user = User { illusts: vec!["1".to_string(), "22".to_string(), "333".to_string()] };
    let jobs = plan_author(&user, "42");
    assert_eq!(jobs.len(), 3);
    for (job, id) in jobs.iter().zip(["1", "22", "333"]) {
        assert_eq!(job.illust_id, id);
        assert_eq!(job.author.as_deref(), Some("42"));
    }
    assert!(plan_author(&User { illusts: vec![] }, "42").is_empty());
}
