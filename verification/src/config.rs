use vstd::prelude::*;

verus! {

/// Application settings: which OCR engine to use, how long to wait after the
/// trigger before capturing, the hotkey combination, and whether recognized
/// text is copied to the clipboard automatically.
#[derive(Debug)]
pub struct AppConfig {
    pub ocr_engine: String,
    pub trigger_delay_ms: u32,
    pub hotkey: String,
    pub auto_copy: bool,
}

impl Clone for AppConfig {
    fn clone(&self) -> (r: Self)
        ensures
            r.ocr_engine@ == self.ocr_engine@,
            r.trigger_delay_ms == self.trigger_delay_ms,
            r.hotkey@ == self.hotkey@,
            r.auto_copy == self.auto_copy,
    {
        AppConfig {
            ocr_engine: self.ocr_engine.clone(),
            trigger_delay_ms: self.trigger_delay_ms,
            hotkey: self.hotkey.clone(),
            auto_copy: self.auto_copy,
        }
    }
}

impl Default for AppConfig {
    /// The configuration used when no configuration file exists yet.
    fn default() -> (c: Self)
        ensures
            c.ocr_engine@ == "Tesseract"@,
            c.trigger_delay_ms == 300,
            c.hotkey@ == "Alt"@,
            c.auto_copy == true,
    {
        AppConfig {
            ocr_engine: "Tesseract".to_owned(),
            trigger_delay_ms: 300,
            hotkey: "Alt".to_owned(),
            auto_copy: true,
        }
    }
}

/// Recognized text is copied to the clipboard exactly when automatic copying
/// is switched on and the text is not empty.
pub fn should_auto_copy(config: &AppConfig, text: &str) -> (r: bool)
    ensures
        r == (config.auto_copy && text@.len() != 0),
{
    config.auto_copy && !text.is_empty()
}

} // verus!
