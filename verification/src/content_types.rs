//! Common `Content-Type` values: a static table of MIME names, pure data.

use vstd::prelude::*;

verus! {

/// AAC audio
pub const AAC: &'static str = "audio/aac";

/// AbiWord document
pub const ABW: &'static str = "application/x-abiword";

/// Animated Portable Network Graphics (APNG) image
pub const APNG: &'static str = "image/apng";

/// Archive document (multiple files embedded)
pub const ARC: &'static str = "application/x-freearc";

/// AVIF image
pub const AVIF: &'static str = "image/avif";

/// AVI: Audio Video Interleave
pub const AVI: &'static str = "video/x-msvideo";

/// Amazon Kindle eBook format
pub const AZW: &'static str = "application/vnd.amazon.ebook";

/// Any kind of binary data
pub const BIN: &'static str = "application/octet-stream";

/// Windows OS/2 Bitmap Graphics
pub const BMP: &'static str = "image/bmp";

/// BZip archive
pub const BZ: &'static str = "application/x-bzip";

/// BZip2 archive
pub const BZ2: &'static str = "application/x-bzip2";

/// CD audio
pub const CDA: &'static str = "application/x-cdf";

/// C-Shell script
pub const CSH: &'static str = "application/x-csh";

/// Cascading Style Sheets (CSS)
pub const CSS: &'static str = "text/css";

/// Comma-separated values (CSV)
pub const CSV: &'static str = "text/csv";

/// Microsoft Word
pub const DOC: &'static str = "application/msword";

/// Microsoft Word (OpenXML)
pub const DOCX: &'static str = "application/vnd.openxmlformats-officedocument.wordprocessingml.document";

/// MS Embedded OpenType fonts
pub const EOT: &'static str = "application/vnd.ms-fontobject";

/// Electronic publication (EPUB)
pub const EPUB: &'static str = "application/epub+zip";

/// GZip Compressed Archive
pub const GZ: &'static str = "application/gzip";

/// Graphics Interchange Format (GIF)
pub const GIF: &'static str = "image/gif";

/// HyperText Markup Language (HTML)
pub const HTML: &'static str = "text/html";

/// Icon format
pub const ICO: &'static str = "image/vnd.microsoft.icon";

/// iCalendar format
pub const ICS: &'static str = "text/calendar";

/// Java Archive (JAR)
pub const JAR: &'static str = "application/java-archive";

/// JPEG images
pub const JPEG: &'static str = "image/jpeg";

/// JavaScript
pub const JS: &'static str = "text/javascript";

/// JSON format
pub const JSON: &'static str = "application/json";

/// JSON-LD format
pub const JSONLD: &'static str = "application/ld+json";

/// Markdown
pub const MD: &'static str = "text/markdown";

/// Musical Instrument Digital Interface (MIDI)
pub const MIDI: &'static str = "audio/midi";

/// JavaScript module
pub const MJS: &'static str = "text/javascript";

/// MP3 audio
pub const MP3: &'static str = "audio/mpeg";

/// MP4 video
pub const MP4: &'static str = "video/mp4";

/// MPEG Video
pub const MPEG: &'static str = "video/mpeg";

/// Apple Installer Package
pub const MPKG: &'static str = "application/vnd.apple.installer+xml";

/// OpenDocument presentation document
pub const ODP: &'static str = "application/vnd.oasis.opendocument.presentation";

/// OpenDocument spreadsheet document
pub const ODS: &'static str = "application/vnd.oasis.opendocument.spreadsheet";

/// OpenDocument text document
pub const ODT: &'static str = "application/vnd.oasis.opendocument.text";

/// Ogg audio
pub const OGA: &'static str = "audio/ogg";

/// Ogg video
pub const OGV: &'static str = "video/ogg";

/// Ogg
pub const OGX: &'static str = "application/ogg";

/// Opus audio in Ogg container
pub const OPUS: &'static str = "audio/ogg";

/// OpenType font
pub const OTF: &'static str = "font/otf";

/// Portable Network Graphics
pub const PNG: &'static str = "image/png";

/// Adobe Portable Document Format (PDF)
pub const PDF: &'static str = "application/pdf";

/// Hypertext Preprocessor (Personal Home Page)
pub const PHP: &'static str = "application/x-httpd-php";

/// Microsoft PowerPoint
pub const PPT: &'static str = "application/vnd.ms-powerpoint";

/// Microsoft PowerPoint (OpenXML)
pub const PPTX: &'static str = "application/vnd.openxmlformats-officedocument.presentationml.presentation";

/// RAR archive
pub const RAR: &'static str = "application/vnd.rar";

/// Rich Text Format (RTF)
pub const RTF: &'static str = "application/rtf";

/// Bourne shell script
pub const SH: &'static str = "application/x-sh";

/// Scalable Vector Graphics (SVG)
pub const SVG: &'static str = "image/svg+xml";

/// Tape Archive (TAR)
pub const TAR: &'static str = "application/x-tar";

/// Tagged Image File Format (TIFF)
pub const TIFF: &'static str = "image/tiff";

/// MPEG transport stream
pub const TS: &'static str = "video/mp2t";

/// TrueType Font
pub const TTF: &'static str = "font/ttf";

/// Text, (generally ASCII or ISO 8859-n)
pub const TXT: &'static str = "text/plain";

/// Microsoft Visio
pub const VSD: &'static str = "application/vnd.visio";

/// Waveform Audio Format
pub const WAV: &'static str = "audio/wav";

/// WEBM audio
pub const WEBA: &'static str = "audio/webm";

/// WEBM video
pub const WEBM: &'static str = "video/webm";

/// Web application manifest
pub const WEBMANIFEST: &'static str = "application/manifest+json";

/// WEBP image
pub const WEBP: &'static str = "image/webp";

/// Web Open Font Format (WOFF)
pub const WOFF: &'static str = "font/woff";

/// Web Open Font Format (WOFF)
pub const WOFF2: &'static str = "font/woff2";

/// XHTML
pub const XHTML: &'static str = "application/xhtml+xml";

/// Microsoft Excel
pub const XLS: &'static str = "application/vnd.ms-excel";

/// Microsoft Excel (OpenXML)
pub const XLSX: &'static str = "application/vnd.openxmlformats-officedocument.spreadsheetml.sheet";

/// XML
pub const XML: &'static str = "application/xml";

/// XUL
pub const XUL: &'static str = "application/vnd.mozilla.xul+xml";

/// ZIP archive
pub const ZIP: &'static str = "application/zip";

/// 3GPP audio container
pub const _3GP_AUDIO: &'static str = "audio/3gpp";

/// 3GPP video container
pub const _3GP_VIDEO: &'static str = "video/3gpp";

/// 3GPP2 audio container
pub const _3G2_AUDIO: &'static str = "audio/3gpp2";

/// 3GPP2 video container
pub const _3G2_VIDEO: &'static str = "video/3gpp2";

/// 7-zip archive
pub const _7Z: &'static str = "application/x-7z-compressed";

} // verus!
