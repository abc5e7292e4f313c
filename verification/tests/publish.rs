use honeybee::publish::{publish_steps, temp_path, Step};

#[test]
fn file_is_written_beside_the_destination_and_renamed() {
    assert_eq!(temp_path("/var/www/html/iris/api/alarm"), "/var/www/html/iris/api/alarm~");
    assert_eq!(temp_path(""), "~");
    assert_eq!(
        publish_steps("api/img/g7.gif", vec![71, 73, 70]),
        vec![
            Step::Write("api/img/g7.gif~".to_string(), vec![71, 73, 70]),
            Step::Rename("api/img/g7.gif~".to_string(), "api/img/g7.gif".to_string()),
        ]
    );
}

#[test]
fn empty_array_is_published_whole() {
    let bytes = honeybee::simple::fetch_simple(&vec![]);
    let steps = publish_steps("incident", bytes);
    assert_eq!(steps[0], Step::Write("incident~".to_string(), b"[]\n".to_vec()));
    assert_eq!(steps.len(), 2);
}
