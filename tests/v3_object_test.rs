use cloudreve_api::api::v3::models::{Property, SourceItems};

#[test]
fn test_source_items_struct() {
    let items = SourceItems {
        dirs: vec!["folder1", "folder2"],
        items: vec!["file1", "file2", "file3"],
    };

    assert_eq!(items.dirs.len(), 2);
    assert_eq!(items.items.len(), 3);
    assert_eq!(items.dirs[0], "folder1");
}

#[test]
fn v3_object_test_test_property_struct() {
    let property = Property {
        created_at: "2024-05-01T11:04:25.491493+08:00".to_string(),
        updated_at: "2024-05-01T11:04:25.491493+08:00".to_string(),
        policy: "".to_string(),
        size: 1597,
        child_folder_num: 1,
        child_file_num: 1,
        path: "".to_string(),
        query_date: "2024-05-01T11:20:50.7077079+08:00".to_string(),
    };

    assert_eq!(property.size, 1597);
    assert_eq!(property.child_folder_num, 1);
    assert_eq!(property.child_file_num, 1);
}
