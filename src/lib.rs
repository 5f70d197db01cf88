//! Host-side commands of a desktop application shell: the user name that the
//! front-end shows, and the record that describes the host it runs on.

pub mod identity;
pub mod system_info;
