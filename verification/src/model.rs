//! The catalog entry and its mathematical value.

use vstd::prelude::*;

verus! {

/// One entry of the model catalog, as the service reports it.
///
/// The four dates are kept as the service wrote them; nothing here reads
/// them. `tags` and `categories` keep the order in which they arrived.
#[derive(Debug, PartialEq)]
pub struct FuelModel {
    pub created_at: String,
    pub updated_at: String,
    pub name: String,
    pub owner: String,
    pub description: String,
    pub likes: u32,
    pub downloads: u32,
    pub filesize: usize,
    pub upload_date: String,
    pub modify_date: String,
    pub license_id: u32,
    pub license_name: String,
    pub license_url: String,
    pub license_image: String,
    pub permission: u32,
    pub url_name: String,
    pub private: bool,
    pub tags: Vec<String>,
    pub categories: Vec<String>,
}

/// What a [`FuelModel`] stands for: every text as its sequence of
/// characters, every list as a sequence of such texts.
pub ghost struct ModelValue {
    pub created_at: Seq<char>,
    pub updated_at: Seq<char>,
    pub name: Seq<char>,
    pub owner: Seq<char>,
    pub description: Seq<char>,
    pub likes: u32,
    pub downloads: u32,
    pub filesize: usize,
    pub upload_date: Seq<char>,
    pub modify_date: Seq<char>,
    pub license_id: u32,
    pub license_name: Seq<char>,
    pub license_url: Seq<char>,
    pub license_image: Seq<char>,
    pub permission: u32,
    pub url_name: Seq<char>,
    pub private: bool,
    pub tags: Seq<Seq<char>>,
    pub categories: Seq<Seq<char>>,
}

/// The texts that a list of strings holds, in order.
pub open spec fn texts(list: Seq<String>) -> Seq<Seq<char>> {
    list.map_values(|text: String| text@)
}

/// The values that a list of models holds, in order.
pub open spec fn snapshot(models: Seq<FuelModel>) -> Seq<ModelValue> {
    models.map_values(|model: FuelModel| model@)
}

impl View for FuelModel {
    type V = ModelValue;

    open spec fn view(&self) -> ModelValue {
        ModelValue {
            created_at: self.created_at@,
            updated_at: self.updated_at@,
            name: self.name@,
            owner: self.owner@,
            description: self.description@,
            likes: self.likes,
            downloads: self.downloads,
            filesize: self.filesize,
            upload_date: self.upload_date@,
            modify_date: self.modify_date@,
            license_id: self.license_id,
            license_name: self.license_name@,
            license_url: self.license_url@,
            license_image: self.license_image@,
            permission: self.permission,
            url_name: self.url_name@,
            private: self.private,
            tags: texts(self.tags@),
            categories: texts(self.categories@),
        }
    }
}

/// Copies a list of strings, text for text.
pub fn clone_texts(list: &Vec<String>) -> (copy: Vec<String>)
    ensures
        texts(copy@) == texts(list@),
{
    let mut copy: Vec<String> = Vec::new();
    let mut at: usize = 0;
    while at < list.len()
        invariant
            at <= list.len(),
            copy.len() == at,
            forall|k: int| 0 <= k < at ==> copy@[k]@ == list@[k]@,
        decreases list.len() - at,
    {
        copy.push(list[at].clone());
        at += 1;
    }
    copy
}

impl Clone for FuelModel {
    fn clone(&self) -> (copy: Self)
        ensures
            copy@ == self@,
    {
        FuelModel {
            created_at: self.created_at.clone(),
            updated_at: self.updated_at.clone(),
            name: self.name.clone(),
            owner: self.owner.clone(),
            description: self.description.clone(),
            likes: self.likes,
            downloads: self.downloads,
            filesize: self.filesize,
            upload_date: self.upload_date.clone(),
            modify_date: self.modify_date.clone(),
            license_id: self.license_id,
            license_name: self.license_name.clone(),
            license_url: self.license_url.clone(),
            license_image: self.license_image.clone(),
            permission: self.permission,
            url_name: self.url_name.clone(),
            private: self.private,
            tags: clone_texts(&self.tags),
            categories: clone_texts(&self.categories),
        }
    }
}

/// Copies a list of models, value for value.
pub fn clone_models(models: &Vec<FuelModel>) -> (copy: Vec<FuelModel>)
    ensures
        snapshot(copy@) == snapshot(models@),
{
    let mut copy: Vec<FuelModel> = Vec::new();
    let mut at: usize = 0;
    while at < models.len()
        invariant
            at <= models.len(),
            copy.len() == at,
            forall|k: int| 0 <= k < at ==> copy@[k]@ == models@[k]@,
        decreases models.len() - at,
    {
        copy.push(models[at].clone());
        at += 1;
    }
    copy
}

} // verus!
