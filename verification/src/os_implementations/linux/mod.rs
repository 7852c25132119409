//! Linux: systemd user units and what `gsettings` and `xrandr` print.

mod errors;
mod systemd;
mod utils;

pub use errors::LinuxOSError;
pub use systemd::{
    gen_service_file, gen_timer_file, handle_frequency, install_astra_service_and_timer,
    is_install_plan, is_uninstall_plan,
    spec_service_file, spec_timer_file, uninstall_astra_serivice_and_timer, unit_path,
};
pub use utils::{
    before_trailing, get_screen_resolution, is_dark_mode_active, read_line, read_lines, up_to,
    without_around, LineReading,
};
