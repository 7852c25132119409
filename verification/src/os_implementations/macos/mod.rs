//! macOS: launchd agents and what `system_profiler` and `launchctl` print.

mod errors;
mod launchctl;
mod utils;

pub use errors::MacOSError;
pub use launchctl::{
    extract_interval, extract_interval_text, gen_plist_file_name, gen_plist_for_astra,
    get_user_id, job_label, launchctl_bootout_astra, launchctl_bootstrap_astra,
    launchctl_check_existance_of_astra_job, launchctl_install_astra_freq,
    launchctl_print_command, launchctl_uninstall_astra_freq, spec_extract_interval,
    spec_plist, MAC_OS_LAUNCHCTL_INTERVAL,
};
pub use utils::{
    below_run, above_run, get_key_value_pair_based_on_spaces, handle_frequency, is_dark_mode_active,
    is_due, lemma_saved_time_reads_back, needs_install, number_in, parse_output, preceding_spaces,
    properties_of, resolution_of, retrieve_last_execution_time, save_last_execution_time,
    spec_last_execution, spec_parse_output, spec_saved_time, trim_newline, without_newline,
    FrequencyStep,
};
