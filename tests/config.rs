use onset_enhanced::config::Config;

#[test]
fn getters_return_the_given_settings() {
    let c = Config::new(
        String::from("/path/to/data_dir/"),
        String::from("http://example.com/bcdice-api/endpoint"),
        100,
        30,
        86400,
        5000,
        20,
    );
    assert_eq!(c.data_dir(), "/path/to/data_dir/");
    assert_eq!(c.bcdice_url(), "http://example.com/bcdice-api/endpoint");
    assert_eq!(*c.room_count_limit(), 100);
    assert_eq!(*c.room_name_limit(), 30);
    assert_eq!(*c.room_delete_interval_sec(), 86400);
    assert_eq!(*c.message_length_limit(), 5000);
    assert_eq!(*c.nickname_length_limit(), 20);
}
