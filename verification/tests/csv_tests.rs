use tudu::csv::write_tasks_into_csv_file;
use tudu::task::Task;

#[test]
fn test_write_file() {
    let task = Task { id: 0, title: String::from("Title"), status: String::from("completed") };

    let task_list = vec![task];

    let result = write_tasks_into_csv_file(&task_list);
    assert_eq!(result, "0,Title,completed\n");
}

#[test]
fn test_csv_empty_list() {
    let task_list: Vec<Task> = Vec::new();
    assert_eq!(write_tasks_into_csv_file(&task_list), "");
}

#[test]
fn test_csv_numbers_records_in_order() {
    let task_list = vec![
        Task { id: 5, title: String::from("first"), status: String::from("in-progress") },
        Task { id: 2, title: String::from("second"), status: String::from("completed") },
    ];
    assert_eq!(
        write_tasks_into_csv_file(&task_list),
        "0,first,in-progress\n1,second,completed\n"
    );
}

#[test]
fn test_csv_quotes_fields_that_need_it() {
    let task_list = vec![Task {
        id: 1,
        title: String::from("milk, \"fresh\""),
        status: String::from("in-progress"),
    }];
    assert_eq!(
        write_tasks_into_csv_file(&task_list),
        "0,\"milk, \"\"fresh\"\"\",in-progress\n"
    );
}

#[test]
fn test_csv_quotes_line_breaks() {
    let task_list = vec![Task {
        id: 1,
        title: String::from("two\nlines"),
        status: String::from("completed"),
    }];
    assert_eq!(write_tasks_into_csv_file(&task_list), "0,\"two\nlines\",completed\n");
}
