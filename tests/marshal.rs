use enry::{
    decode_flag, decode_text, decode_text_list, encode_bytes, encode_text, EntryPoint, Guess,
    HostArg, MarshalError, ParamKind, Request,
};

const ALL_ENTRY_POINTS: [EntryPoint; 19] = [
    EntryPoint::Languages,
    EntryPoint::LanguageByContent,
    EntryPoint::LanguageExtensions,
    EntryPoint::Language,
    EntryPoint::MimeType,
    EntryPoint::LanguageByExtension,
    EntryPoint::LanguageByFilename,
    EntryPoint::LanguageByModeline,
    EntryPoint::LanguageByShebang,
    EntryPoint::LanguageByVimModeline,
    EntryPoint::LanguageByEmacsModeline,
    EntryPoint::IsBinary,
    EntryPoint::IsConfiguration,
    EntryPoint::IsDocumentation,
    EntryPoint::IsDotFile,
    EntryPoint::IsImage,
    EntryPoint::IsVendor,
    EntryPoint::IsGenerated,
    EntryPoint::Color,
];

fn args_for<'a>(entry: EntryPoint, text: &'a str, bytes: &'a [u8]) -> Vec<HostArg<'a>> {
    (0..entry.param_count())
        .map(|i| match entry.param(i) {
            ParamKind::Text => HostArg::Text(text),
            ParamKind::Bytes => HostArg::Bytes(bytes),
        })
        .collect()
}

#[test]
fn encode_bytes_appends_terminator() {
    let buf = encode_bytes(b"import os").unwrap();
    assert_eq!(buf.payload_len(), 9);
    assert_eq!(buf.terminated(), b"import os\0");
}

#[test]
fn encode_bytes_empty() {
    let buf = encode_bytes(b"").unwrap();
    assert_eq!(buf.payload_len(), 0);
    assert_eq!(buf.terminated(), b"\0");
}

#[test]
fn encode_bytes_refuses_terminator() {
    assert_eq!(encode_bytes(b"ab\0cd").err(), Some(MarshalError::InvalidInput));
    assert_eq!(encode_bytes(b"\0").err(), Some(MarshalError::InvalidInput));
    assert_eq!(encode_bytes(b"abc\0").err(), Some(MarshalError::InvalidInput));
}

#[test]
fn encode_text_uses_utf8_bytes() {
    let buf = encode_text("héllo.rs").unwrap();
    assert_eq!(buf.payload_len(), 9);
    assert_eq!(buf.terminated(), "héllo.rs\0".as_bytes());
}

#[test]
fn encode_text_refuses_nul() {
    assert_eq!(encode_text("test\0.py").err(), Some(MarshalError::InvalidInput));
}

#[test]
fn text_round_trip() {
    for s in ["test.py", "", "héllo wörld ✓ 🦀", "pom.xml", "#!/usr/bin/bash"] {
        let buf = encode_text(s).unwrap();
        let echoed = &buf.terminated()[..buf.payload_len()];
        assert_eq!(decode_text(echoed).unwrap(), s);
    }
}

#[test]
fn every_entry_point_refuses_nul_text_or_bytes() {
    for entry in ALL_ENTRY_POINTS {
        for i in 0..entry.param_count() {
            let mut args = args_for(entry, "fine.py", b"fine");
            args[i] = match entry.param(i) {
                ParamKind::Text => HostArg::Text("bad\0name"),
                ParamKind::Bytes => HostArg::Bytes(b"bad\0content"),
            };
            assert_eq!(
                Request::new(entry, &args).err(),
                Some(MarshalError::InvalidInput),
                "{:?} argument {}",
                entry,
                i
            );
        }
    }
}

#[test]
fn every_entry_point_accepts_clean_input() {
    for entry in ALL_ENTRY_POINTS {
        let args = args_for(entry, "test.py", b"import os");
        let request = Request::new(entry, &args).unwrap();
        assert_eq!(request.entry(), entry);
        for i in 0..entry.param_count() {
            let expected: &[u8] = match entry.param(i) {
                ParamKind::Text => b"test.py",
                ParamKind::Bytes => b"import os",
            };
            let arg = request.arg(i);
            assert_eq!(&arg.terminated()[..arg.payload_len()], expected);
        }
    }
}

#[test]
fn catalog_shapes() {
    assert_eq!(EntryPoint::Language.param_count(), 2);
    assert_eq!(EntryPoint::Language.param(0), ParamKind::Text);
    assert_eq!(EntryPoint::Language.param(1), ParamKind::Bytes);
    assert_eq!(EntryPoint::MimeType.param(1), ParamKind::Text);
    assert_eq!(EntryPoint::IsBinary.param_count(), 1);
    assert_eq!(EntryPoint::IsBinary.param(0), ParamKind::Bytes);
    assert_eq!(EntryPoint::Color.param(0), ParamKind::Text);
    assert_eq!(EntryPoint::IsGenerated.param(1), ParamKind::Bytes);
}

#[test]
fn language_request_for_python_file() {
    let args = [HostArg::Text("test.py"), HostArg::Bytes(b"import os")];
    let request = Request::new(EntryPoint::Language, &args).unwrap();
    assert_eq!(request.arg(0).terminated(), b"test.py\0");
    assert_eq!(request.arg(1).terminated(), b"import os\0");
    assert_eq!(decode_text(b"Python").unwrap(), "Python");
}

#[test]
fn language_request_for_shebang_only() {
    let args = [HostArg::Text(""), HostArg::Bytes(b"#!/usr/bin/bash")];
    let request = Request::new(EntryPoint::Language, &args).unwrap();
    assert_eq!(request.arg(0).payload_len(), 0);
    assert_eq!(request.arg(1).terminated(), b"#!/usr/bin/bash\0");
    assert_eq!(decode_text(b"Shell").unwrap(), "Shell");
}

#[test]
fn decode_text_valid() {
    assert_eq!(decode_text(b"Common Lisp").unwrap(), "Common Lisp");
    assert_eq!(decode_text(b"").unwrap(), "");
    assert_eq!(decode_text("C♯ 🦀".as_bytes()).unwrap(), "C♯ 🦀");
    assert_eq!(decode_text(b"text/x-ruby").unwrap(), "text/x-ruby");
}

#[test]
fn decode_text_invalid_utf8() {
    assert_eq!(decode_text(b"\xff").err(), Some(MarshalError::EncodingError));
    assert_eq!(decode_text(b"ab\xc3").err(), Some(MarshalError::EncodingError));
    // overlong encoding of '/'
    assert_eq!(decode_text(b"\xc0\xaf").err(), Some(MarshalError::EncodingError));
    // a surrogate half
    assert_eq!(decode_text(b"\xed\xa0\x80").err(), Some(MarshalError::EncodingError));
    // beyond U+10FFFF
    assert_eq!(decode_text(b"\xf4\x90\x80\x80").err(), Some(MarshalError::EncodingError));
}

#[test]
fn decode_text_list_keeps_order() {
    let expected = [
        ".py", ".cgi", ".fcgi", ".gyp", ".gypi", ".lmi", ".py3", ".pyde", ".pyi", ".pyp",
        ".pyt", ".pyw", ".rpy", ".smk", ".spec", ".tac", ".wsgi", ".xpy",
    ];
    let items: Vec<Vec<u8>> = expected.iter().map(|s| s.as_bytes().to_vec()).collect();
    let decoded = decode_text_list(&items).unwrap();
    assert_eq!(decoded, expected);
    assert!(decoded.iter().any(|e| e == ".pyw"));
    assert!(decoded.iter().any(|e| e == ".pyi"));
}

#[test]
fn decode_text_list_empty() {
    let items: Vec<Vec<u8>> = Vec::new();
    assert_eq!(decode_text_list(&items).unwrap(), Vec::<String>::new());
}

#[test]
fn decode_text_list_single() {
    let items = vec![b"Python".to_vec()];
    assert_eq!(decode_text_list(&items).unwrap(), ["Python"]);
}

#[test]
fn decode_text_list_invalid_element() {
    let items = vec![b"Python".to_vec(), b"\xfe".to_vec(), b"Ruby".to_vec()];
    assert_eq!(decode_text_list(&items).err(), Some(MarshalError::EncodingError));
}

#[test]
fn decode_flag_nonzero_is_true() {
    assert!(!decode_flag(0));
    assert!(decode_flag(1));
    assert!(decode_flag(2));
    assert!(decode_flag(255));
}

#[test]
fn guess_ambiguous_extension() {
    let guess = Guess::from_wire(b"Common Lisp", 0).unwrap();
    assert_eq!(guess.language, "Common Lisp");
    assert!(!guess.safe);
}

#[test]
fn guess_confident() {
    let guess = Guess::from_wire(b"Maven POM", 1).unwrap();
    assert_eq!(guess.language, "Maven POM");
    assert!(guess.safe);
    let guess = Guess::from_wire(b"C++", 7).unwrap();
    assert!(guess.safe);
}

#[test]
fn guess_no_match() {
    let guess = Guess::from_wire(b"", 0).unwrap();
    assert_eq!(guess.language, "");
    assert!(!guess.safe);
}

#[test]
fn guess_invalid_language() {
    assert_eq!(
        Guess::from_wire(b"Py\xffthon", 1).err(),
        Some(MarshalError::EncodingError)
    );
}

#[test]
fn decoded_values_outlive_their_source() {
    let mut source = b"Python".to_vec();
    let kept = decode_text(&source).unwrap();
    let kept_guess = Guess::from_wire(&source, 1).unwrap();
    let kept_list = decode_text_list(&[source.clone(), b".py".to_vec()]).unwrap();
    source.iter_mut().for_each(|b| *b = b'x');
    drop(source);
    for i in 0..1000u32 {
        let other = format!("Language{}", i);
        let _ = decode_text(other.as_bytes()).unwrap();
        let _ = Guess::from_wire(other.as_bytes(), (i % 2) as u8).unwrap();
        let _ = encode_text(&other).unwrap();
    }
    assert_eq!(kept, "Python");
    assert_eq!(kept_guess.language, "Python");
    assert!(kept_guess.safe);
    assert_eq!(kept_list, ["Python", ".py"]);
}
