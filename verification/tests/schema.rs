use epserde::ser::{Serialize, SchemaWriter, WriteNoStd, WriteWithNames, WriteWithPos, WriterWithPos};

#[test]
fn test_schema_rows_of_a_byte() {
    let mut buf: Vec<u8> = Vec::new();
    let schema = 7u8.serialize_with_schema(&mut buf).unwrap();
    let csv = schema.to_csv();
    let usize_size = core::mem::size_of::<usize>();
    let expected = format!(
        "field,offset,align,size,ty\n\
         MAGIC,0,0,8,u64\n\
         VERSION_MAJOR,8,0,2,u16\n\
         VERSION_MINOR,10,0,2,u16\n\
         USIZE_SIZE,12,0,1,u8\n\
         TYPE_HASH,13,0,8,u64\n\
         REPR_HASH,21,0,8,u64\n\
         TYPE_NAME,29,0,{},String\n\
         TYPE_NAME.len,29,0,{},usize\n\
         TYPE_NAME.zero,{},1,2,u8\n\
         ROOT,{},0,1,u8\n",
        usize_size + 2,
        usize_size,
        29 + usize_size,
        31 + usize_size,
    );
    assert_eq!(csv, expected);
    assert_eq!(buf.len(), 32 + usize_size);
}

#[test]
fn test_schema_debug_shows_bytes() {
    let mut buf: Vec<u8> = Vec::new();
    let schema = 7u8.serialize_with_schema(&mut buf).unwrap();
    let debug = schema.debug(&buf);
    let lines: Vec<&str> = debug.lines().collect();
    assert_eq!(lines[0], "field,offset,align,size,ty,bytes");
    assert_eq!(lines[1], "MAGIC,0,0,8,u64,[65, 70, 73, 65, 72, 64, 65, 20]");
    assert_eq!(lines[2], "VERSION_MAJOR,8,0,2,u16,[01, 00]");
    // The string row is followed by its length row at the same offset: no bytes.
    assert!(lines[7].starts_with("TYPE_NAME,29,0,"));
    assert!(lines[7].ends_with(","));
    assert!(lines[9].ends_with(",1,2,u8,[75, 38]"));
    assert!(lines[10].ends_with(",0,1,u8,[07]"));
}

#[test]
fn test_schema_padding_rows() {
    let mut buf: Vec<u8> = Vec::new();
    let schema = vec![1u64, 2].serialize_with_schema(&mut buf).unwrap();
    let csv = schema.to_csv();
    // The header is followed by the vector's length at an offset that is not a multiple
    // of 8, so padding is written before the items.
    assert!(csv.contains("PADDING,"));
    assert!(csv.contains(",8,16,u64\n"));
    let root = schema.0.iter().find(|r| r.field == "ROOT").unwrap();
    assert_eq!(root.ty, "Vec<u64>");
    assert_eq!(root.offset + root.size, buf.len());
}

#[test]
fn test_empty_schema_csv() {
    let schema = epserde::ser::Schema(Vec::new());
    assert_eq!(schema.to_csv(), "field,offset,align,size,ty\n");
    assert_eq!(schema.debug(&[]), "field,offset,align,size,ty,bytes\n");
}

#[test]
fn test_schema_rows_of_an_option() {
    let mut buf: Vec<u8> = Vec::new();
    let schema = Some(0x0102u16).serialize_with_schema(&mut buf).unwrap();
    let us = core::mem::size_of::<usize>();
    let h = 29 + us + 11;
    let rows: Vec<String> = schema.to_csv().lines().skip(10).map(String::from).collect();
    assert_eq!(
        rows,
        vec![
            format!("ROOT,{},0,3,Option<u16>", h),
            format!("ROOT.Tag,{},0,1,u8", h),
            format!("ROOT.Some,{},0,2,u16", h + 1),
        ]
    );
    assert_eq!(buf.len(), h + 3);
}

#[test]
fn test_schema_rows_of_a_vector() {
    let mut buf: Vec<u8> = Vec::new();
    let schema = vec![1u32, 2, 3].serialize_with_schema(&mut buf).unwrap();
    let us = core::mem::size_of::<usize>();
    let h = 29 + us + 8;
    let p = h + us;
    let pad = (4 - p % 4) % 4;
    let mut expected = vec![
        format!("ROOT,{},0,{},Vec<u32>", h, us + pad + 12),
        format!("ROOT.len,{},0,{},usize", h, us),
    ];
    if pad > 0 {
        expected.push(format!("PADDING,{},1,{},[u8; {}]", p, pad, pad));
    }
    expected.push(format!("ROOT.zero,{},4,12,u32", p + pad));
    let rows: Vec<String> = schema.to_csv().lines().skip(10).map(String::from).collect();
    assert_eq!(rows, expected);
    assert_eq!((p + pad) % 4, 0);
}

#[test]
fn test_schema_writer_align_pads_to_a_multiple() {
    let mut sw = SchemaWriter::new(Vec::<u8>::new());
    sw.write_all(&[1, 2, 3]).unwrap();
    sw.align::<u64>().unwrap();
    assert_eq!(sw.pos(), 8);
    sw.align::<u64>().unwrap();
    assert_eq!(sw.pos(), 8);
    let (schema, bytes) = sw.into_parts();
    assert_eq!(bytes, vec![1, 2, 3, 0, 0, 0, 0, 0]);
    assert_eq!(schema.to_csv(), "field,offset,align,size,ty\nPADDING,3,1,5,[u8; 5]\n");
}

#[test]
fn test_writers_on_borrowed_backends() {
    let mut buf: Vec<u8> = Vec::new();
    {
        let mut w = WriterWithPos::new(&mut buf);
        w.write_all(&[1, 2]).unwrap();
        assert_eq!(w.pos(), 2);
    }
    assert_eq!(buf, vec![1, 2]);
    let mut out: Vec<u8> = Vec::new();
    let mut sw = SchemaWriter::new(&mut out);
    5u16.serialize_on_field_write(&mut sw).unwrap();
    let (schema, _) = sw.into_parts();
    let root = schema.0.last().unwrap();
    assert_eq!(root.field, "ROOT");
    assert_eq!(root.size, 2);
    assert_eq!(root.offset + 2, out.len());
}
