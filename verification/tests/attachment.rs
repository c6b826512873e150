use skyeng_sync::notes::ToAttachment;
use skyeng_sync::notes::url_to_filename;

#[test]
fn test_url_picture_parse() {
    let url = "https://cdn-user77752.skyeng.ru/resized-images/200x150/png/50/5a677c4b4a356e7a4a3fc243deb73676.png".to_string();
    let attachment = url.to_attachment(vec![
        "Extra".to_string()
    ]);
    assert_eq!(attachment.url, url);
    assert_eq!(attachment.filename, "5a677c4b4a356e7a4a3fc243deb73676.png".to_string());
    assert_eq!(attachment.fields, vec![
        "Extra".to_string()
    ]);
}

#[test]
fn test_url_sound_parse() {
    let url = "https://d2fmfepycn0xw0.cloudfront.net?gender=female&accent=american&text=deter".to_string();
    let attachment = url.to_attachment(vec![
        "Extra".to_string()
    ]);
    assert_eq!(attachment.url, url);
    assert_eq!(attachment.filename, "deter.mp3".to_string());
    assert_eq!(attachment.fields, vec![
        "Extra".to_string()
    ]);
}

#[test]
fn url_with_query_but_no_equals() {
    // with a query marker but no '=', the whole URL is the "word"
    assert_eq!(url_to_filename("https://host/a?flag"), "https://host/a?flag.mp3");
}

#[test]
fn url_with_trailing_equals() {
    assert_eq!(url_to_filename("https://host?text="), ".mp3");
}

#[test]
fn url_with_trailing_question_mark() {
    assert_eq!(url_to_filename("https://host/clip?"), "https://host/clip?.mp3");
}

#[test]
fn url_without_any_slash() {
    assert_eq!(url_to_filename("plain.png"), "plain.png");
}

#[test]
fn url_basename_after_last_slash() {
    assert_eq!(url_to_filename("https://host/deep/path/img.png"), "img.png");
}
