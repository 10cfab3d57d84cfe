use haiku_backend::clipboard::HaikuClipboard;

#[test]
fn clipboard_handle_constructs() {
    // The backend has no clipboard capability; the handle carries no state.
    let _c = HaikuClipboard::new();
}
