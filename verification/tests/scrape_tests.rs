use wnacg_tasks::scrape::{payload_from_response, prepend_with_format, ScrapeError};

const PAGE: &str = r#"<html><body>
<div id="bodywrap">
  <h2>  A Fine Gallery  </h2>
  <div class="grid"><div><ul>
    <li><div class="pic_box tb"><a><img src="//img.example.net/thumb.jpg"></a></div></li>
  </ul></div></div>
  <div id="ads"><a href="/download-index-aid-12345.html">download</a></div>
</div>
</body></html>"#;

#[test]
fn scrape_extracts_all_fields() {
    let url = "https://www.wnacg.com/photos-index-aid-12345.html".to_string();
    let p = payload_from_response(url.clone(), 200, PAGE).unwrap();
    assert_eq!(p.url, url);
    assert_eq!(p.title, "A Fine Gallery");
    assert_eq!(p.image, "//img.example.net/thumb.jpg");
    assert_eq!(
        p.download_page_href,
        "https://www.wnacg.com/download-index-aid-12345.html"
    );
}

#[test]
fn scrape_defaults_every_missing_field_independently() {
    let p = payload_from_response("https://u".to_string(), 200, "<html><body></body></html>")
        .unwrap();
    assert_eq!(p.title, "<title not found>");
    assert_eq!(p.image, "placeholder.png");
    assert_eq!(p.download_page_href, "");
}

#[test]
fn scrape_title_alone_still_defaults_the_rest() {
    let body = r#"<div id="bodywrap"><h2>Only Title</h2></div>"#;
    let p = payload_from_response("https://u".to_string(), 200, body).unwrap();
    assert_eq!(p.title, "Only Title");
    assert_eq!(p.image, "placeholder.png");
    assert_eq!(p.download_page_href, "");
}

#[test]
fn scrape_on_404_fails_with_that_status() {
    let r = payload_from_response("https://u".to_string(), 404, PAGE);
    assert_eq!(r, Err(ScrapeError::HttpStatus(404)));
}

#[test]
fn scrape_on_500_fails_with_that_status() {
    let r = payload_from_response("https://u".to_string(), 500, "");
    assert_eq!(r, Err(ScrapeError::HttpStatus(500)));
}

#[test]
fn scrape_on_201_succeeds() {
    assert!(payload_from_response("https://u".to_string(), 201, "").is_ok());
}

#[test]
fn absolute_href_is_kept() {
    assert_eq!(
        prepend_with_format("https://other.example/x.zip".to_string()),
        "https://other.example/x.zip"
    );
    assert_eq!(
        prepend_with_format("http://other.example/x.zip".to_string()),
        "http://other.example/x.zip"
    );
}

#[test]
fn protocol_relative_href_gains_the_scheme() {
    assert_eq!(
        prepend_with_format("//dl.example.net/x.zip".to_string()),
        "https://dl.example.net/x.zip"
    );
}

#[test]
fn site_relative_href_gains_the_origin() {
    assert_eq!(
        prepend_with_format("/download-index-aid-1.html".to_string()),
        "https://www.wnacg.com/download-index-aid-1.html"
    );
}

#[test]
fn other_href_is_left_alone() {
    assert_eq!(prepend_with_format("relative.html".to_string()), "relative.html");
    assert_eq!(prepend_with_format(String::new()), "");
}

