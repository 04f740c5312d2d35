use freemd::upload::{extension, upload, upload_finish, upload_plan, SavePlan, Upload, UploadPage};

fn form(name: Option<&str>, content_type: Option<&str>) -> Upload {
    Upload { name: name.map(|s| s.to_string()), content_type: content_type.map(|s| s.to_string()) }
}

#[test]
fn extension_follows_std_path() {
    for p in [
        "a.txt", "a.tar.gz", ".bashrc", ".a.b", "a.", "noext", "dir/x.png", "dir.d/file", "a/b/.",
        "a/b/", "/", "", ".", "..", "a/..", "./", "x//y.z", "a/./b.c/.", "ÅÄ.ÖÖ",
    ] {
        let expected = std::path::Path::new(p)
            .extension()
            .map(|e| e.to_string_lossy().to_string());
        assert_eq!(extension(p), expected, "path {:?}", p);
    }
}

fn check_plan(plan: &SavePlan, ext: &str) {
    let stem_and_ext = plan.file_link.strip_prefix("static/upload/").expect("prefix");
    let (stem, e) = stem_and_ext.split_at(10);
    assert!(stem.chars().all(|c| c.is_ascii_alphanumeric()), "{}", stem);
    assert_eq!(e, format!(".{}", ext));
    assert_eq!(plan.link, format!("/{}", plan.file_link));
}

#[test]
fn upload_uses_name_extension_lowercased() {
    let plan = upload(&form(Some("photo.PNG"), Some("image/gif"))).expect("accepted");
    check_plan(&plan, "png");
}

#[test]
fn upload_falls_back_to_mime() {
    for (ct, ext) in [
        ("image/png", "png"),
        ("image/jpeg", "jpg"),
        ("image/gif", "gif"),
        ("application/pdf", "pdf"),
        ("text/plain", "txt"),
    ] {
        let plan = upload(&form(Some("photo"), Some(ct))).expect("accepted");
        check_plan(&plan, ext);
    }
}

#[test]
fn upload_names_are_random() {
    let a = upload(&form(Some("f"), Some("image/png"))).unwrap();
    let b = upload(&form(Some("f"), Some("image/png"))).unwrap();
    assert_ne!(a.file_link, b.file_link);
}

#[test]
fn upload_refusals() {
    assert_eq!(upload(&form(None, Some("image/png"))), Err(UploadPage::Error("No filename!".to_string())));
    assert_eq!(
        upload(&form(Some("photo"), None)),
        Err(UploadPage::Error("No extension and no MIME".to_string()))
    );
    assert_eq!(
        upload(&form(Some("photo"), Some("text/plain; charset=utf-8"))),
        Err(UploadPage::Error("Unsupported MIME: text/plain; charset=utf-8".to_string()))
    );
}

#[test]
fn upload_finish_answers() {
    let plan = SavePlan { file_link: "static/upload/abc.png".to_string(), link: "/static/upload/abc.png".to_string() };
    assert_eq!(upload_finish(plan, Ok(())), UploadPage::Link("/static/upload/abc.png".to_string()));
    let plan = SavePlan { file_link: "static/upload/abc.png".to_string(), link: "/static/upload/abc.png".to_string() };
    assert_eq!(upload_finish(plan, Err("denied".to_string())), UploadPage::Error("Save fail: denied".to_string()));
}

#[test]
fn upload_plan_places_the_drawn_stem() {
    assert_eq!(
        upload_plan(&form(Some("photo"), Some("image/jpeg")), "aB3dE6gH9j"),
        Ok(SavePlan {
            file_link: "static/upload/aB3dE6gH9j.jpg".to_string(),
            link: "/static/upload/aB3dE6gH9j.jpg".to_string(),
        })
    );
    assert_eq!(
        upload_plan(&form(Some("notes.TXT"), None), "x1"),
        Ok(SavePlan { file_link: "static/upload/x1.txt".to_string(), link: "/static/upload/x1.txt".to_string() })
    );
    assert_eq!(upload_plan(&form(None, None), "x1"), Err(UploadPage::Error("No filename!".to_string())));
}
