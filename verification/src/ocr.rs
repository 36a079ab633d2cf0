use vstd::prelude::*;
use crate::screenshot::ScreenCapture;
use crate::text::str_eq;

verus! {

/// The selectable OCR backends.
#[derive(Debug, Clone, Copy, PartialEq, Eq, Structural)]
pub enum OcrEngine {
    Tesseract,
    WeChatOCR,
}

impl OcrEngine {
    /// The engine a configuration string selects: exactly the name
    /// "WeChatOCR" picks WeChatOCR; anything else falls back to Tesseract.
    pub fn from_name(name: &str) -> (r: OcrEngine)
        ensures
            r == (if name@ == "WeChatOCR"@ {
                OcrEngine::WeChatOCR
            } else {
                OcrEngine::Tesseract
            }),
    {
        if str_eq(name, "WeChatOCR") {
            OcrEngine::WeChatOCR
        } else {
            OcrEngine::Tesseract
        }
    }

    /// How long the stand-in for this engine waits before reporting, in
    /// milliseconds.
    pub fn stub_delay_ms(&self) -> (r: u64)
        ensures
            r == (if self is Tesseract {
                500u64
            } else {
                300u64
            }),
    {
        match self {
            OcrEngine::Tesseract => 500,
            OcrEngine::WeChatOCR => 300,
        }
    }
}

/// What a recognition pass reports: the text, the engine's confidence in
/// hundredths (85 stands for 0.85), and the language tag.
#[derive(Debug, Clone)]
pub struct OcrResult {
    pub text: String,
    pub confidence_percent: u8,
    pub language: String,
}

/// Run the selected engine over the capture. Both engines are stand-ins for
/// now and report a fixed notice instead of reading the pixels, so the
/// result is pinned down completely by the engine choice.
pub fn perform_ocr(_capture: &ScreenCapture, engine: OcrEngine) -> (r: OcrResult)
    ensures
        engine == OcrEngine::Tesseract ==> {
            &&& r.text@
                == "Tesseract OCR 功能开发中...\n请安装 Tesseract 引擎\n\n示例识别文本：\nHello World\n你好世界"@
            &&& r.confidence_percent == 85
            &&& r.language@ == "chi_sim+eng"@
        },
        engine == OcrEngine::WeChatOCR ==> {
            &&& r.text@
                == "WeChatOCR 功能开发中...\n需要安装微信\n\n示例识别文本：\nScreen OCR\n屏幕文字识别"@
            &&& r.confidence_percent == 90
            &&& r.language@ == "zh-CN"@
        },
        r.text@.len() != 0,
{
    match engine {
        OcrEngine::Tesseract => {
            let r = OcrResult {
                text:
                    "Tesseract OCR 功能开发中...\n请安装 Tesseract 引擎\n\n示例识别文本：\nHello World\n你好世界".to_owned(),
                confidence_percent: 85,
                language: "chi_sim+eng".to_owned(),
            };
            proof {
                reveal_strlit(
                    "Tesseract OCR 功能开发中...\n请安装 Tesseract 引擎\n\n示例识别文本：\nHello World\n你好世界",
                );
            }
            r
        },
        OcrEngine::WeChatOCR => {
            let r = OcrResult {
                text:
                    "WeChatOCR 功能开发中...\n需要安装微信\n\n示例识别文本：\nScreen OCR\n屏幕文字识别".to_owned(),
                confidence_percent: 90,
                language: "zh-CN".to_owned(),
            };
            proof {
                reveal_strlit(
                    "WeChatOCR 功能开发中...\n需要安装微信\n\n示例识别文本：\nScreen OCR\n屏幕文字识别",
                );
            }
            r
        },
    }
}

} // verus!
