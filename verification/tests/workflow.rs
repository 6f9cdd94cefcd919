use command_bridge::workflow::{execute_file_system_workflow, workflow_receipt};
use serde_json::{Number, Value};

#[test]
fn receipt_names_operation_and_arguments() {
    assert_eq!(
        workflow_receipt("read", "Null"),
        "Successfully received operation: read with args: Null"
    );
}

#[test]
fn receipt_takes_empty_parts() {
    assert_eq!(workflow_receipt("", ""), "Successfully received operation:  with args: ");
}

#[test]
fn workflow_echoes_null_arguments() {
    let reply = execute_file_system_workflow("list".to_string(), Value::Null);
    assert_eq!(reply, Ok("Successfully received operation: list with args: Null".to_string()));
}

#[test]
fn workflow_echoes_an_object() {
    let mut fields = serde_json::Map::new();
    fields.insert("path".to_string(), Value::String("/tmp/notes.txt".to_string()));
    let reply = execute_file_system_workflow("readFile".to_string(), Value::Object(fields));
    assert_eq!(
        reply,
        Ok(
            "Successfully received operation: readFile with args: Object {\"path\": String(\"/tmp/notes.txt\")}"
                .to_string()
        )
    );
}

#[test]
fn workflow_echoes_mixed_values() {
    let items = vec![Value::Bool(true), Value::Number(Number::from(3)), Value::Null];
    let reply = execute_file_system_workflow("batch".to_string(), Value::Array(items));
    assert_eq!(
        reply,
        Ok(
            "Successfully received operation: batch with args: Array [Bool(true), Number(3), Null]"
                .to_string()
        )
    );
}

#[test]
fn workflow_echoes_parsed_json() {
    let args: Value = serde_json::from_str("{\"recursive\": false}").unwrap();
    let reply = execute_file_system_workflow("remove".to_string(), args).unwrap();
    assert_eq!(
        reply,
        "Successfully received operation: remove with args: Object {\"recursive\": Bool(false)}"
    );
}

#[test]
fn workflow_reply_contains_both_inputs() {
    let args = Value::String("a \"quoted\" word".to_string());
    let shown = format!("{:?}", args);
    let reply = execute_file_system_workflow("write to disk".to_string(), args).unwrap();
    assert!(reply.contains("write to disk"));
    assert!(reply.contains(&shown));
    assert!(reply.ends_with(&shown));
}

#[test]
fn workflow_accepts_any_operation_name() {
    let reply = execute_file_system_workflow(String::new(), Value::Null);
    assert_eq!(reply, Ok("Successfully received operation:  with args: Null".to_string()));
}
