use vstd::prelude::*;

use crate::message::SettingsField;

verus! {

/// The flat record of user-chosen options that shapes the worker
/// process's command line.
#[derive(Debug)]
pub struct AdvancedSettings {
    pub output_directory: String,
    pub filename_template: String,
    pub preferred_quality: String,
    pub preferred_codec: String,
    pub download_subtitles: bool,
    pub subtitle_languages: String,
    pub embed_subtitles: bool,
    pub embed_thumbnail: bool,
    pub embed_metadata: bool,
    pub enable_sponsorblock: bool,
    pub sponsorblock_categories: String,
    pub proxy: String,
    pub rate_limit: String,
    pub concurrent_fragments: String,
    pub cookies_file: String,
    pub ytdlp_path: String,
    pub js_runtimes: String,
    pub extra_arguments: String,
}

impl Clone for AdvancedSettings {
    fn clone(&self) -> (r: Self)
        ensures
            r == *self,
    {
        AdvancedSettings {
            output_directory: self.output_directory.clone(),
            filename_template: self.filename_template.clone(),
            preferred_quality: self.preferred_quality.clone(),
            preferred_codec: self.preferred_codec.clone(),
            download_subtitles: self.download_subtitles,
            subtitle_languages: self.subtitle_languages.clone(),
            embed_subtitles: self.embed_subtitles,
            embed_thumbnail: self.embed_thumbnail,
            embed_metadata: self.embed_metadata,
            enable_sponsorblock: self.enable_sponsorblock,
            sponsorblock_categories: self.sponsorblock_categories.clone(),
            proxy: self.proxy.clone(),
            rate_limit: self.rate_limit.clone(),
            concurrent_fragments: self.concurrent_fragments.clone(),
            cookies_file: self.cookies_file.clone(),
            ytdlp_path: self.ytdlp_path.clone(),
            js_runtimes: self.js_runtimes.clone(),
            extra_arguments: self.extra_arguments.clone(),
        }
    }
}

impl AdvancedSettings {
    /// What the record holds when the user has chosen nothing yet.
    pub open spec fn is_default(self) -> bool {
        &&& self.output_directory@ == Seq::<char>::empty()
        &&& self.filename_template@ == "%(title)s.%(ext)s"@
        &&& self.preferred_quality@ == Seq::<char>::empty()
        &&& self.preferred_codec@ == Seq::<char>::empty()
        &&& self.download_subtitles == false
        &&& self.subtitle_languages@ == "en"@
        &&& self.embed_subtitles == false
        &&& self.embed_thumbnail == false
        &&& self.embed_metadata == false
        &&& self.enable_sponsorblock == false
        &&& self.sponsorblock_categories@ == "sponsor"@
        &&& self.proxy@ == Seq::<char>::empty()
        &&& self.rate_limit@ == Seq::<char>::empty()
        &&& self.concurrent_fragments@ == "1"@
        &&& self.cookies_file@ == Seq::<char>::empty()
        &&& self.ytdlp_path@ == "yt-dlp"@
        &&& self.js_runtimes@ == Seq::<char>::empty()
        &&& self.extra_arguments@ == Seq::<char>::empty()
    }

    /// The record `self` with one field replaced as `field` says.
    pub open spec fn spec_apply(self, field: SettingsField) -> AdvancedSettings {
        match field {
            SettingsField::OutputDirectory(v) => AdvancedSettings { output_directory: v, ..self },
            SettingsField::FilenameTemplate(v) => AdvancedSettings { filename_template: v, ..self },
            SettingsField::PreferredQuality(v) => AdvancedSettings { preferred_quality: v, ..self },
            SettingsField::PreferredCodec(v) => AdvancedSettings { preferred_codec: v, ..self },
            SettingsField::DownloadSubtitles(v) => AdvancedSettings { download_subtitles: v, ..self },
            SettingsField::SubtitleLanguages(v) => AdvancedSettings { subtitle_languages: v, ..self },
            SettingsField::EmbedSubtitles(v) => AdvancedSettings { embed_subtitles: v, ..self },
            SettingsField::EmbedThumbnail(v) => AdvancedSettings { embed_thumbnail: v, ..self },
            SettingsField::EmbedMetadata(v) => AdvancedSettings { embed_metadata: v, ..self },
            SettingsField::EnableSponsorBlock(v) => AdvancedSettings { enable_sponsorblock: v, ..self },
            SettingsField::SponsorBlockCategories(v) => AdvancedSettings { sponsorblock_categories: v, ..self },
            SettingsField::Proxy(v) => AdvancedSettings { proxy: v, ..self },
            SettingsField::RateLimit(v) => AdvancedSettings { rate_limit: v, ..self },
            SettingsField::ConcurrentFragments(v) => AdvancedSettings { concurrent_fragments: v, ..self },
            SettingsField::CookiesFile(v) => AdvancedSettings { cookies_file: v, ..self },
            SettingsField::YtDlpPath(v) => AdvancedSettings { ytdlp_path: v, ..self },
            SettingsField::JsRuntimes(v) => AdvancedSettings { js_runtimes: v, ..self },
            SettingsField::ExtraArguments(v) => AdvancedSettings { extra_arguments: v, ..self },
        }
    }

    /// Replace one field of the record as `field` says, leaving the rest.
    pub fn apply(&mut self, field: SettingsField)
        ensures
            *final(self) == old(self).spec_apply(field),
    {
        match field {
            SettingsField::OutputDirectory(v) => self.output_directory = v,
            SettingsField::FilenameTemplate(v) => self.filename_template = v,
            SettingsField::PreferredQuality(v) => self.preferred_quality = v,
            SettingsField::PreferredCodec(v) => self.preferred_codec = v,
            SettingsField::DownloadSubtitles(v) => self.download_subtitles = v,
            SettingsField::SubtitleLanguages(v) => self.subtitle_languages = v,
            SettingsField::EmbedSubtitles(v) => self.embed_subtitles = v,
            SettingsField::EmbedThumbnail(v) => self.embed_thumbnail = v,
            SettingsField::EmbedMetadata(v) => self.embed_metadata = v,
            SettingsField::EnableSponsorBlock(v) => self.enable_sponsorblock = v,
            SettingsField::SponsorBlockCategories(v) => self.sponsorblock_categories = v,
            SettingsField::Proxy(v) => self.proxy = v,
            SettingsField::RateLimit(v) => self.rate_limit = v,
            SettingsField::ConcurrentFragments(v) => self.concurrent_fragments = v,
            SettingsField::CookiesFile(v) => self.cookies_file = v,
            SettingsField::YtDlpPath(v) => self.ytdlp_path = v,
            SettingsField::JsRuntimes(v) => self.js_runtimes = v,
            SettingsField::ExtraArguments(v) => self.extra_arguments = v,
        }
    }
}

impl Default for AdvancedSettings {
    /// The record with every option at its out-of-the-box value.
    fn default() -> (r: Self)
        ensures
            r.is_default(),
    {
        AdvancedSettings {
            output_directory: String::new(),
            filename_template: "%(title)s.%(ext)s".to_owned(),
            preferred_quality: String::new(),
            preferred_codec: String::new(),
            download_subtitles: false,
            subtitle_languages: "en".to_owned(),
            embed_subtitles: false,
            embed_thumbnail: false,
            embed_metadata: false,
            enable_sponsorblock: false,
            sponsorblock_categories: "sponsor".to_owned(),
            proxy: String::new(),
            rate_limit: String::new(),
            concurrent_fragments: "1".to_owned(),
            cookies_file: String::new(),
            ytdlp_path: "yt-dlp".to_owned(),
            js_runtimes: String::new(),
            extra_arguments: String::new(),
        }
    }
}

} // verus!
