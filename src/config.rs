//! Settings of the service: where its data lives and the limits that callers
//! enforce before they touch the registry.
use vstd::prelude::*;

verus! {

/// The settings as values.
pub struct ConfigView {
    pub data_dir: Seq<char>,
    pub bcdice_url: Seq<char>,
    pub room_count_limit: u32,
    pub room_name_limit: u32,
    pub room_delete_interval_sec: u32,
    pub message_length_limit: u32,
    pub nickname_length_limit: u32,
}

/// Settings of the service.
pub struct Config {
    data_dir: String,
    bcdice_url: String,
    room_count_limit: u32,
    room_name_limit: u32,
    room_delete_interval_sec: u32,
    message_length_limit: u32,
    nickname_length_limit: u32,
}

impl View for Config {
    type V = ConfigView;

    closed spec fn view(&self) -> ConfigView {
        ConfigView {
            data_dir: self.data_dir@,
            bcdice_url: self.bcdice_url@,
            room_count_limit: self.room_count_limit,
            room_name_limit: self.room_name_limit,
            room_delete_interval_sec: self.room_delete_interval_sec,
            message_length_limit: self.message_length_limit,
            nickname_length_limit: self.nickname_length_limit,
        }
    }
}

impl Config {
    pub fn new(
        data_dir: String,
        bcdice_url: String,
        room_count_limit: u32,
        room_name_limit: u32,
        room_delete_interval_sec: u32,
        message_length_limit: u32,
        nickname_length_limit: u32,
    ) -> (r: Config)
        ensures
            r@ == (ConfigView {
                data_dir: data_dir@,
                bcdice_url: bcdice_url@,
                room_count_limit,
                room_name_limit,
                room_delete_interval_sec,
                message_length_limit,
                nickname_length_limit,
            }),
    {
        Config {
            data_dir,
            bcdice_url,
            room_count_limit,
            room_name_limit,
            room_delete_interval_sec,
            message_length_limit,
            nickname_length_limit,
        }
    }

    /// Directory that holds the service's data files.
    pub fn data_dir(&self) -> (r: &str)
        ensures
            r@ == self@.data_dir,
    {
        self.data_dir.as_str()
    }

    /// Endpoint of the dice-rolling service.
    pub fn bcdice_url(&self) -> (r: &str)
        ensures
            r@ == self@.bcdice_url,
    {
        self.bcdice_url.as_str()
    }

    /// Largest number of rooms.
    pub fn room_count_limit(&self) -> (r: &u32)
        ensures
            *r == self@.room_count_limit,
    {
        &self.room_count_limit
    }

    /// Longest room name.
    pub fn room_name_limit(&self) -> (r: &u32)
        ensures
            *r == self@.room_name_limit,
    {
        &self.room_name_limit
    }

    /// Seconds between sweeps of idle rooms.
    pub fn room_delete_interval_sec(&self) -> (r: &u32)
        ensures
            *r == self@.room_delete_interval_sec,
    {
        &self.room_delete_interval_sec
    }

    /// Longest message.
    pub fn message_length_limit(&self) -> (r: &u32)
        ensures
            *r == self@.message_length_limit,
    {
        &self.message_length_limit
    }

    /// Longest nickname.
    pub fn nickname_length_limit(&self) -> (r: &u32)
        ensures
            *r == self@.nickname_length_limit,
    {
        &self.nickname_length_limit
    }
}

} // verus!
