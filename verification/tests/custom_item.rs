use talk_lib::item::BaseItemView;
use talk_lib::{BaseItem, Create, Delete, Item, MemoryStore, Read, Replace, StoreInfo};
use vstd::seq::Seq;
use vstd::view::View;

/// A record type of the test's own: a note under a topic. The functions that
/// only specifications call are never run.
#[derive(Clone, Debug)]
struct Note {
    topic: String,
    title: String,
    text: String,
    base: BaseItem,
}

impl View for Note {
    type V = ();

    fn view(&self) {
        unreachable!()
    }
}

impl Item for Note {
    fn spec_partition(_v: ()) -> Seq<char> {
        unreachable!()
    }

    fn spec_id(_v: ()) -> Seq<char> {
        unreachable!()
    }

    fn spec_base(_v: ()) -> BaseItemView {
        unreachable!()
    }

    fn spec_with_base(_v: (), _base: BaseItemView) {
        unreachable!()
    }

    fn lemma_with_base(_v: (), _base: BaseItemView) {
        unreachable!()
    }

    fn lemma_with_own_base(_v: ()) {
        unreachable!()
    }

    fn lemma_clone(_a: Self, _b: Self) {
        unreachable!()
    }

    fn partition(&self) -> &str {
        &self.topic
    }

    fn id(&self) -> &str {
        &self.title
    }

    fn as_ref(&self) -> &BaseItem {
        &self.base
    }

    fn as_mut(&mut self) -> &mut BaseItem {
        &mut self.base
    }
}

fn note(topic: &str, title: &str, text: &str) -> Note {
    Note {
        topic: topic.to_string(),
        title: title.to_string(),
        text: text.to_string(),
        base: BaseItem::default(),
    }
}

#[test]
fn a_store_of_another_record_type() {
    let mut store = MemoryStore::<Note>::from(StoreInfo::new("notes", "shelf"));
    let created = store.create(&note("verus", "modes", "spec, proof, exec")).unwrap().clone();
    assert_eq!(Item::as_ref(&created).get_row_id().0, "verus");
    assert_eq!(Item::as_ref(&created).get_row_id().1, "modes");
    assert_eq!(store.read(&created).unwrap().text, "spec, proof, exec");
    let mut changed = created.clone();
    changed.text = "three modes".to_string();
    assert_eq!(store.replace(&changed).unwrap().text, "three modes");
    assert_eq!(store.delete(&created).unwrap().text, "three modes");
    assert!(store.read(&created).is_err());
    assert_eq!(store.iter_items().count(), 0);
}
