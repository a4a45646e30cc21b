//! Process settings owned by the host: the default settings document and
//! the path a source's stored settings live under.

use vstd::prelude::*;
use vstd::string::StringExecFns;

verus! {

/// The default settings document, used when no settings file exists or it
/// cannot be read.
pub open spec fn spec_default_settings() -> Seq<char> {
    "{\n        \"storage_path\": null,\n        \"webdav_url\": null,\n        \"enabled_cron_check_mangas_update\": false,\n        \"source_skip_cron\": \"\",\n        \"preload_chapters\": 0,\n        \"optimize_image\": false,\n        \"source_lists\": [],\n        \"languages\": []\n    }"@
}

/// The default settings document.
pub fn get_default_settings() -> (r: String)
    ensures
        r@ == spec_default_settings(),
{
    String::from_str(
        "{\n        \"storage_path\": null,\n        \"webdav_url\": null,\n        \"enabled_cron_check_mangas_update\": false,\n        \"source_skip_cron\": \"\",\n        \"preload_chapters\": 0,\n        \"optimize_image\": false,\n        \"source_lists\": [],\n        \"languages\": []\n    }",
    )
}

/// The path a source's stored settings live under, inside the host's
/// configuration directory.
pub open spec fn spec_source_settings_path(config_dir: Seq<char>, source_id: Seq<char>) -> Seq<
    char,
> {
    config_dir + "/sources/"@ + source_id + ".settings.json"@
}

/// Builds the stored-settings path of a source under a configuration
/// directory.
pub fn get_source_settings_path(config_dir: &str, source_id: &str) -> (r: String)
    ensures
        r@ == spec_source_settings_path(config_dir@, source_id@),
{
    let mut out = String::from_str(config_dir);
    out.append("/sources/");
    out.append(source_id);
    out.append(".settings.json");
    out
}

} // verus!
