use moo_dl::webdav::{
    deserialize_http_timestamp, extract_sciebo_links, filename_from_content_disposition,
    final_url_segment, webdav_plan, DavEntry, DavItem, DavPlan, InvalidHttpTime,
};

fn entry(href: &str, status: &str, t: Option<u64>) -> DavEntry {
    DavEntry { href: href.to_string(), status: status.to_string(), last_modified: t }
}

#[test]
fn final_segments_are_decoded() {
    assert_eq!(
        final_url_segment("/public.php/webdav/My%20Folder/"),
        Some("My Folder".to_string())
    );
    assert_eq!(final_url_segment("https://uni.sciebo.de/s/AbC123"), Some("AbC123".to_string()));
    assert_eq!(final_url_segment("https://uni.sciebo.de/"), None);
}

#[test]
fn share_links_are_found() {
    let text = "files: https://uni-x.sciebo.de/s/Ab12 and https://other.sciebo.de/s/zZ9-q end";
    let shares = extract_sciebo_links(text).unwrap();
    assert_eq!(shares.len(), 2);
    assert_eq!(shares[0].share_url, "https://uni-x.sciebo.de/s/Ab12");
    assert_eq!(shares[0].webdav_url, "https://uni-x.sciebo.de/public.php/webdav/");
    assert_eq!(shares[0].username, "Ab12");
    assert_eq!(shares[1].username, "zZ9-q");
    assert!(extract_sciebo_links("nothing").unwrap().is_empty());
}

#[test]
fn listing_plans() {
    let root = "/public.php/webdav/";
    assert!(matches!(webdav_plan(root, &vec![], true), DavPlan::Nothing));
    let single = vec![entry("/public.php/webdav", "HTTP/1.1 200 OK", Some(9))];
    assert!(matches!(
        webdav_plan(root, &single, true),
        DavPlan::SingleShare { last_modified: Some(9) }
    ));
    match webdav_plan(root, &single, false) {
        DavPlan::Items(v) => assert!(v.is_empty()),
        other => panic!("unexpected {:?}", other),
    }
    let listing = vec![
        entry("/public.php/webdav/", "HTTP/1.1 200 OK", None),
        entry("/public.php/webdav/Slides/", "HTTP/1.1 200 OK", None),
        entry("/public.php/webdav/notes%20a.pdf", "HTTP/1.1 200 OK", Some(5)),
        entry("/public.php/webdav/gone.pdf", "HTTP/1.1 404 Not Found", Some(5)),
    ];
    match webdav_plan(root, &listing, true) {
        DavPlan::Items(v) => {
            assert_eq!(v.len(), 2);
            assert!(matches!(&v[0], DavItem::Folder { name, .. } if name == "Slides"));
            assert!(matches!(
                &v[1],
                DavItem::File { name, last_modified: Some(5), .. } if name == "notes a.pdf"
            ));
        }
        other => panic!("unexpected {:?}", other),
    }
}

#[test]
fn content_disposition_names() {
    assert_eq!(
        filename_from_content_disposition("attachment; filename*=UTF-8''report.pdf;"),
        Some("report.pdf".to_string())
    );
    assert_eq!(filename_from_content_disposition("attachment; filename=\"a.pdf\""), None);
}

#[test]
fn http_timestamps() {
    assert_eq!(
        deserialize_http_timestamp(&Some("Wed, 18 Feb 2015 23:16:09 GMT".to_string())),
        Ok(Some(1424301369))
    );
    assert_eq!(deserialize_http_timestamp(&None), Ok(None));
    assert_eq!(deserialize_http_timestamp(&Some("yesterday".to_string())), Err(InvalidHttpTime));
}
