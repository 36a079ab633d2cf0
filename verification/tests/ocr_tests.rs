use screenocr::ocr::perform_ocr;
use screenocr::ocr::OcrEngine;
use screenocr::screenshot::ScreenCapture;

fn blank_capture() -> ScreenCapture {
    ScreenCapture { width: 100, height: 100, data: vec![0; 100 * 100 * 4], x: 0, y: 0 }
}

#[test]
fn test_tesseract_ocr() {
    let capture = blank_capture();
    let result = perform_ocr(&capture, OcrEngine::Tesseract);
    assert!(!result.text.is_empty());
    assert!(result.confidence_percent > 0);
}

#[test]
fn tesseract_notice_is_exact() {
    let capture = blank_capture();
    let result = perform_ocr(&capture, OcrEngine::Tesseract);
    assert_eq!(
        result.text,
        "Tesseract OCR 功能开发中...\n请安装 Tesseract 引擎\n\n示例识别文本：\nHello World\n你好世界"
    );
    assert_eq!(result.confidence_percent, 85);
    assert_eq!(result.language, "chi_sim+eng");
}

#[test]
fn wechat_notice_is_exact() {
    let capture = blank_capture();
    let result = perform_ocr(&capture, OcrEngine::WeChatOCR);
    assert_eq!(
        result.text,
        "WeChatOCR 功能开发中...\n需要安装微信\n\n示例识别文本：\nScreen OCR\n屏幕文字识别"
    );
    assert_eq!(result.confidence_percent, 90);
    assert_eq!(result.language, "zh-CN");
}

#[test]
fn stub_delays_are_fixed() {
    assert_eq!(OcrEngine::Tesseract.stub_delay_ms(), 500);
    assert_eq!(OcrEngine::WeChatOCR.stub_delay_ms(), 300);
}

#[test]
fn engine_name_selection() {
    assert_eq!(OcrEngine::from_name("WeChatOCR"), OcrEngine::WeChatOCR);
    assert_eq!(OcrEngine::from_name("Tesseract"), OcrEngine::Tesseract);
    assert_eq!(OcrEngine::from_name("wechatocr"), OcrEngine::Tesseract);
    assert_eq!(OcrEngine::from_name(""), OcrEngine::Tesseract);
}
