use superbuilder_relay::{
    begin, chat_request, download_request, finish, message_text, upload_progress, ChatEvent, ChatMessage,
    ChatRelay, ChatStep, ClientSlot, Command, DownloadEvent, DownloadProgress, DownloadRelay, EmitKind, Output,
    RelayError, Reply, Request, RpcOp, UploadEvent, UploadRelay, UploadReply,
};

fn all_commands() -> Vec<Command> {
    vec![
        Command::GetConfig { assistant: "a".to_string() },
        Command::UpdateDbModels { assistant: "a".to_string(), models_json: "{}".to_string() },
        Command::LoadModels,
        Command::CheckPyllm,
        Command::GetChatHistory,
        Command::RenameChatSession { sid: 3, name: "n".to_string() },
        Command::RemoveChatSession { sid: 3 },
        Command::StopChat,
        Command::StopUploadFile,
        Command::RemoveFile { files: "x".to_string() },
        Command::GetFileList,
    ]
}

#[test]
fn unary_before_connect_is_not_initialized() {
    let slot: ClientSlot<u32> = ClientSlot::new();
    for cmd in all_commands() {
        match begin(&slot, cmd) {
            Err(e) => {
                assert!(matches!(e, RelayError::NotInitialized));
                assert_eq!(e.message(), "Client not initialized");
            }
            Ok(_) => panic!("a request was handed out without a connection"),
        }
    }
}

#[test]
fn unary_after_connect_hands_out_request() {
    let mut slot: ClientSlot<u32> = ClientSlot::new();
    assert_eq!(slot.connect::<()>(Ok(7)).unwrap(), "Connected");
    match begin(&slot, Command::CheckPyllm) {
        Ok((c, Request::SayHello { name })) => {
            assert_eq!(*c, 7);
            assert_eq!(name, "CoreUI");
        }
        _ => panic!("unexpected request"),
    }
    match begin(&slot, Command::RenameChatSession { sid: 4, name: "trip".to_string() }) {
        Ok((_, Request::SetSessionName { session_id, session_name })) => {
            assert_eq!(session_id, 4);
            assert_eq!(session_name, "trip");
        }
        _ => panic!("unexpected request"),
    }
    match begin(&slot, Command::GetFileList) {
        Ok((_, Request::GetFileList { file_type })) => assert_eq!(file_type, ""),
        _ => panic!("unexpected request"),
    }
}

#[test]
fn failed_connect_keeps_state() {
    let mut slot: ClientSlot<u32> = ClientSlot::new();
    let r = slot.connect(Err("refused"));
    assert!(matches!(r, Err(RelayError::Connection)));
    assert_eq!(r.unwrap_err().message(), "Failed to connect to middleware.");
    assert!(slot.current.is_none());
    slot.connect::<()>(Ok(1)).unwrap();
    assert!(slot.connect(Err("refused")).is_err());
    assert_eq!(*slot.acquire().unwrap(), 1);
}

#[test]
fn reconnect_replaces_handle() {
    let mut slot: ClientSlot<String> = ClientSlot::new();
    slot.connect::<()>(Ok("old".to_string())).unwrap();
    let in_flight = slot.acquire().unwrap().clone();
    slot.connect::<()>(Ok("new".to_string())).unwrap();
    assert_eq!(in_flight, "old");
    assert_eq!(slot.acquire().unwrap(), "new");
}

#[test]
fn finish_maps_replies_and_errors() {
    let cmd = Command::GetConfig { assistant: "a".to_string() };
    assert!(matches!(finish(&cmd, Ok(Reply::Text("cfg".to_string()))), Ok(Output::Text(t)) if t == "cfg"));
    let err = finish(&cmd, Err("down".to_string())).unwrap_err();
    assert_eq!(err.message(), "Failed to query database: down");
    let upd = Command::UpdateDbModels { assistant: "a".to_string(), models_json: "[]".to_string() };
    assert!(matches!(finish(&upd, Ok(Reply::Flag(false))), Ok(Output::Text(t)) if t == "Model updated successfully."));
    assert!(matches!(finish(&Command::LoadModels, Ok(Reply::Flag(true))), Ok(Output::Flag(true))));
    assert!(matches!(finish(&Command::StopChat, Ok(Reply::Empty)), Ok(Output::Done)));
    assert_eq!(finish(&Command::LoadModels, Err("x".to_string())).unwrap_err().message(), "Failed to load models: x");
    assert_eq!(finish(&Command::CheckPyllm, Err("x".to_string())).unwrap_err().message(), "Failed to connect: x");
    assert_eq!(finish(&Command::StopUploadFile, Err("x".to_string())).unwrap_err().message(), "Failed to stop upload file: x");
    assert_eq!(finish(&Command::RemoveFile { files: "f".to_string() }, Err("x".to_string())).unwrap_err().message(), "Failed to remove file: x");
    assert_eq!(finish(&Command::GetFileList, Err("x".to_string())).unwrap_err().message(), "Failed to get file list: x");
}

#[test]
fn error_messages() {
    assert_eq!(RelayError::Decode.message(), "Failed to read response message");
    assert_eq!(RelayError::Stream("e".to_string()).message(), "Stream error: e");
    assert_eq!(RelayError::Emit(EmitKind::Progress, "e".to_string()).message(), "Failed to emit progress event: e");
    assert_eq!(RelayError::Emit(EmitKind::Message, "e".to_string()).message(), "Failed to emit message: e");
    assert_eq!(RelayError::Incomplete("partial".to_string()).message(), "partial");
    assert_eq!(RelayError::Rpc(RpcOp::SendChat, "e".to_string()).message(), "Failed to send chat: e");
    assert_eq!(RelayError::Rpc(RpcOp::DownloadFile, "e".to_string()).message(), "Failed to download file: e");
    assert_eq!(RelayError::Rpc(RpcOp::UploadFile, "e".to_string()).message(), "Failed to upload file: e");
}

#[test]
fn message_text_reads_field() {
    assert_eq!(message_text("{\"message\":\"hello\"}"), Some(Some("hello".to_string())));
    assert_eq!(message_text("{\"other\":1}"), Some(None));
    assert_eq!(message_text("{\"message\":5}"), Some(None));
    assert_eq!(message_text("not json"), None);
}

#[test]
fn chat_request_keeps_history_order() {
    let history = vec![
        ChatMessage { role: "user".to_string(), content: "q".to_string() },
        ChatMessage { role: "assistant".to_string(), content: "a".to_string() },
    ];
    let r = chat_request("bot".to_string(), "hi".to_string(), history, 9, Some("summary".to_string()), None);
    assert_eq!(r.history.len(), 2);
    assert_eq!(r.history[0].role, "user");
    assert_eq!(r.history[1].content, "a");
    assert_eq!(r.session_id, 9);
    assert_eq!(r.query_type.as_deref(), Some("summary"));
    assert!(r.attached_files.is_none());
}

fn run_chat(events: Vec<ChatEvent>) -> Vec<ChatStep> {
    let mut relay = ChatRelay::new();
    events.into_iter().map(|e| relay.step(e)).collect()
}

fn item(text: &str) -> ChatEvent {
    ChatEvent::Item(format!("{{\"message\":\"{}\"}}", text))
}

#[test]
fn chat_first_word_once() {
    let steps = run_chat(vec![item("Hel"), item("lo"), ChatEvent::StreamEnded]);
    let firsts: Vec<bool> = steps.iter().map(|s| s.first_word).collect();
    assert_eq!(firsts, vec![true, false, false]);
    assert_eq!(steps[0].message.as_deref(), Some("Hel"));
    assert_eq!(steps[1].message.as_deref(), Some("lo"));
    assert!(steps[2].completed);
    assert!(matches!(steps[2].outcome, Some(Ok(()))));
    assert_eq!(steps.iter().filter(|s| s.completed).count(), 1);
}

#[test]
fn chat_empty_stream_never_fires_first_word() {
    let steps = run_chat(vec![ChatEvent::StreamEnded]);
    assert!(!steps[0].first_word);
    assert!(steps[0].completed);
    assert!(matches!(steps[0].outcome, Some(Ok(()))));
}

#[test]
fn chat_stream_error_stops_once() {
    let steps = run_chat(vec![
        item("a"),
        ChatEvent::StreamFailed("boom".to_string()),
        item("late"),
        ChatEvent::StreamEnded,
        ChatEvent::StopReplied(Ok(())),
        ChatEvent::StreamFailed("again".to_string()),
    ]);
    assert_eq!(steps.iter().filter(|s| s.send_stop).count(), 1);
    assert_eq!(steps.iter().filter(|s| s.completed).count(), 1);
    assert!(steps[1].send_stop);
    assert!(steps[2..].iter().all(|s| s.message.is_none()));
    assert!(steps[4].completed);
    match &steps[4].outcome {
        Some(Err(e)) => assert_eq!(e.message(), "Stream error: boom"),
        _ => panic!("expected the stream error"),
    }
}

#[test]
fn chat_stop_failure_reported() {
    let steps = run_chat(vec![ChatEvent::StreamFailed("boom".to_string()), ChatEvent::StopReplied(Err("gone".to_string()))]);
    assert!(!steps[0].first_word);
    assert!(steps[1].completed);
    match &steps[1].outcome {
        Some(Err(e)) => assert_eq!(e.message(), "Stream error: boom; Failed to stop chat: gone"),
        _ => panic!("expected the stop error"),
    }
}

#[test]
fn chat_malformed_payload_aborts() {
    let steps = run_chat(vec![ChatEvent::Item("{oops".to_string()), item("x")]);
    assert!(steps[0].first_word);
    assert!(matches!(steps[0].outcome, Some(Err(RelayError::Decode))));
    assert!(steps[1].message.is_none());
    assert!(steps[1].outcome.is_none());
}

#[test]
fn chat_item_without_text_emits_nothing() {
    let steps = run_chat(vec![ChatEvent::Item("{\"status\":\"thinking\"}".to_string()), ChatEvent::EmitFailed("closed".to_string())]);
    assert!(steps[0].first_word);
    assert!(steps[0].message.is_none());
    match &steps[1].outcome {
        Some(Err(e)) => assert_eq!(e.message(), "Failed to emit message: closed"),
        _ => panic!("expected the emit error"),
    }
}

fn progress(p: i32, f: &str) -> DownloadEvent {
    DownloadEvent::Item(DownloadProgress { progress: p, file_downloaded: f.to_string() })
}

#[test]
fn download_returns_on_full_progress() {
    let req = download_request("http://m/x".to_string(), "/tmp".to_string(), None);
    let mut relay = DownloadRelay::new(req.file_url.clone());
    let s = relay.step(progress(10, "partial"));
    assert_eq!(s.notify, Some(("http://m/x".to_string(), 10)));
    assert!(relay.step(DownloadEvent::Emitted(Ok(()))).outcome.is_none());
    let s = relay.step(progress(100, "final.bin"));
    assert_eq!(s.notify, Some(("http://m/x".to_string(), 100)));
    match relay.step(DownloadEvent::Emitted(Ok(()))).outcome {
        Some(Ok(f)) => assert_eq!(f, "final.bin"),
        _ => panic!("expected completion"),
    }
    let trailing = relay.step(DownloadEvent::StreamFailed("late".to_string()));
    assert!(trailing.notify.is_none());
    assert!(trailing.outcome.is_none());
}

#[test]
fn download_incomplete_reports_last_file() {
    let mut relay = DownloadRelay::new("u".to_string());
    relay.step(progress(10, "partial"));
    relay.step(DownloadEvent::Emitted(Ok(())));
    match relay.step(DownloadEvent::StreamEnded).outcome {
        Some(Err(e)) => {
            assert!(matches!(&e, RelayError::Incomplete(f) if f == "partial"));
            assert_eq!(e.message(), "partial");
        }
        _ => panic!("expected failure"),
    }
}

#[test]
fn download_errors() {
    let mut relay = DownloadRelay::new("u".to_string());
    relay.step(progress(100, "f"));
    match relay.step(DownloadEvent::Emitted(Err("closed".to_string()))).outcome {
        Some(Err(e)) => assert_eq!(e.message(), "Failed to emit progress event: closed"),
        _ => panic!("expected failure"),
    }
}

#[test]
fn download_stream_error_stops_once() {
    let mut relay = DownloadRelay::new("u".to_string());
    let s0 = relay.step(progress(10, "partial"));
    let s1 = relay.step(DownloadEvent::Emitted(Ok(())));
    let s2 = relay.step(DownloadEvent::StreamFailed("reset".to_string()));
    let s3 = relay.step(progress(20, "late"));
    let s4 = relay.step(DownloadEvent::StreamFailed("again".to_string()));
    let s5 = relay.step(DownloadEvent::StopReplied(Ok(())));
    let s6 = relay.step(DownloadEvent::StreamEnded);
    let steps = [&s0, &s1, &s2, &s3, &s4, &s5, &s6];
    assert_eq!(steps.iter().filter(|s| s.send_stop).count(), 1);
    assert_eq!(steps.iter().filter(|s| s.completed).count(), 1);
    assert!(s2.send_stop && s2.outcome.is_none() && !s2.completed);
    assert!(s3.notify.is_none() && s4.notify.is_none());
    assert!(s5.completed);
    match &s5.outcome {
        Some(Err(e)) => assert_eq!(e.message(), "Stream error: reset"),
        _ => panic!("expected the stream error"),
    }
    assert!(s6.outcome.is_none() && !s6.completed);
}

#[test]
fn download_stop_failure_reported() {
    let mut relay = DownloadRelay::new("u".to_string());
    assert!(relay.step(DownloadEvent::StreamFailed("reset".to_string())).send_stop);
    let s = relay.step(DownloadEvent::StopReplied(Err("gone".to_string())));
    assert!(s.completed);
    match &s.outcome {
        Some(Err(e)) => assert_eq!(e.message(), "Stream error: reset; Failed to stop download: gone"),
        _ => panic!("expected the stop error"),
    }
}

#[test]
fn upload_stop_failure_reported() {
    let mut relay = UploadRelay::new();
    relay.step(UploadEvent::Item(UploadReply { files_uploaded: "a.txt".to_string(), current_file_uploading: None, current_file_progress: None }));
    assert!(relay.step(UploadEvent::StreamFailed("cut".to_string())).send_stop);
    let s = relay.step(UploadEvent::StopReplied(Err("gone".to_string())));
    assert_eq!(s.completed.as_deref(), Some("a.txt"));
    match &s.outcome {
        Some(Err(e)) => assert_eq!(e.message(), "Stream error: cut; Failed to stop upload file: gone"),
        _ => panic!("expected the stop error"),
    }
}

fn upload_item(files: &str, cur: Option<&str>, prog: Option<&str>) -> UploadEvent {
    UploadEvent::Item(UploadReply {
        files_uploaded: files.to_string(),
        current_file_uploading: cur.map(|s| s.to_string()),
        current_file_progress: prog.map(|s| s.to_string()),
    })
}

#[test]
fn upload_forwards_progress_then_completes() {
    let mut relay = UploadRelay::new();
    let a = relay.step(upload_item("a.txt", Some("a.txt"), Some("50%")));
    let b = relay.step(upload_item("a.txt,b.txt", None, None));
    let end = relay.step(UploadEvent::StreamEnded);
    let pa = a.progress.unwrap();
    assert_eq!((pa.files_uploaded.as_str(), pa.current_file_uploading.as_str(), pa.current_file_progress.as_str()), ("a.txt", "a.txt", "50%"));
    let pb = b.progress.unwrap();
    assert_eq!((pb.files_uploaded.as_str(), pb.current_file_uploading.as_str(), pb.current_file_progress.as_str()), ("a.txt,b.txt", "No file", "No progress"));
    assert!(a.completed.is_none() && b.completed.is_none());
    assert!(end.progress.is_none());
    assert_eq!(end.completed.as_deref(), Some("a.txt,b.txt"));
    assert!(matches!(end.outcome, Some(Ok(()))));
}

#[test]
fn upload_stream_error_stops_once() {
    let mut relay = UploadRelay::new();
    let s0 = relay.step(upload_item("a.txt", None, None));
    let s1 = relay.step(UploadEvent::StreamFailed("cut".to_string()));
    let s2 = relay.step(upload_item("b.txt", None, None));
    let s3 = relay.step(UploadEvent::StopReplied(Ok(())));
    let s4 = relay.step(UploadEvent::StreamEnded);
    assert!(!s0.send_stop && s1.send_stop && !s3.send_stop);
    assert!(s2.progress.is_none());
    assert_eq!(s3.completed.as_deref(), Some("a.txt"));
    match &s3.outcome {
        Some(Err(e)) => assert_eq!(e.message(), "Stream error: cut"),
        _ => panic!("expected the stream error"),
    }
    assert!(s4.completed.is_none() && s4.outcome.is_none());
}

#[test]
fn upload_placeholders() {
    let p = upload_progress(UploadReply { files_uploaded: String::new(), current_file_uploading: None, current_file_progress: Some("9%".to_string()) });
    assert_eq!(p.current_file_uploading, "No file");
    assert_eq!(p.current_file_progress, "9%");
}

#[test]
fn chat_take_item_decides_on_decoded_text() {
    let mut relay = ChatRelay::new();
    let s = relay.take_item(Some(Some("tok".to_string())));
    assert!(s.first_word);
    assert_eq!(s.message.as_deref(), Some("tok"));
    let s = relay.take_item(Some(None));
    assert!(!s.first_word);
    assert!(s.message.is_none() && s.outcome.is_none());
    let s = relay.take_item(None);
    assert!(matches!(s.outcome, Some(Err(RelayError::Decode))));
    let s = relay.take_item(Some(Some("after".to_string())));
    assert!(s.message.is_none() && s.outcome.is_none());
}
