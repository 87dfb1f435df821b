use vstd::prelude::*;

verus! {

/// What the packing form reports.
#[derive(Debug, Clone)]
pub enum Message {
    /// The pack button was pressed.
    Pack,
    /// The source project path now reads so.
    SrcProjectChanged(String),
    /// The editor path now reads so.
    EditorChanged(String),
}

/// The values that the packing form holds.
pub struct PackerForm {
    pub src_project_value: String,
    pub editor_value: String,
}

impl PackerForm {
    pub fn new() -> (r: PackerForm)
        ensures
            r.src_project_value@.len() == 0,
            r.editor_value@.len() == 0,
    {
        PackerForm { src_project_value: String::new(), editor_value: String::new() }
    }

    /// Applies a message to the form. Returns whether packing was asked for;
    /// an edit replaces the value of its own field only.
    pub fn update(&mut self, message: Message) -> (r: bool)
        ensures
            match message {
                Message::Pack => r && *final(self) == *old(self),
                Message::SrcProjectChanged(v) => !r && final(self).src_project_value == v
                    && final(self).editor_value == old(self).editor_value,
                Message::EditorChanged(v) => !r && final(self).editor_value == v
                    && final(self).src_project_value == old(self).src_project_value,
            },
    {
        match message {
            Message::Pack => true,
            Message::SrcProjectChanged(value) => {
                self.src_project_value = value;
                false
            },
            Message::EditorChanged(value) => {
                self.editor_value = value;
                false
            },
        }
    }
}

} // verus!
