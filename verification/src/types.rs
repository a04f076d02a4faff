//! The records the service returns, as plain data.
//!
//! Nothing in the crate depends on what a record holds; the types are here so
//! that callers share one vocabulary for them.

use vstd::prelude::*;

verus! {

/// A calendar date whose parts may each be missing.
#[derive(Debug, Clone)]
pub struct Date {
    pub year: Option<i32>,
    pub month: Option<i32>,
    pub day: Option<i32>,
    pub date: Option<String>,
}

/// The image shown for a title, a character or a person.
#[derive(Debug, Clone)]
pub struct Poster {
    pub id: Option<i64>,
    pub original_url: Option<String>,
    pub main_url: Option<String>,
}

/// A genre of a title.
#[derive(Debug, Clone)]
pub struct Genre {
    pub id: i64,
    pub name: String,
    pub russian: Option<String>,
    pub kind: Option<String>,
}

/// A studio that produced an anime.
#[derive(Debug, Clone)]
pub struct Studio {
    pub id: i64,
    pub name: String,
    pub image_url: Option<String>,
}

/// A publisher of a manga.
#[derive(Debug, Clone)]
pub struct Publisher {
    pub id: i64,
    pub name: String,
}

/// A link from a title to another site.
#[derive(Debug, Clone)]
pub struct ExternalLink {
    pub id: Option<i64>,
    pub kind: String,
    pub url: String,
    pub created_at: Option<String>,
    pub updated_at: Option<String>,
}

/// A person, as named inside another record.
#[derive(Debug, Clone)]
pub struct Person {
    pub id: i64,
    pub name: String,
    pub poster: Option<Poster>,
}

/// The roles a person had in a title.
#[derive(Debug, Clone)]
pub struct PersonRole {
    pub id: i64,
    pub roles_ru: Option<Vec<String>>,
    pub roles_en: Option<Vec<String>>,
    pub person: Person,
}

/// A character, as named inside another record.
#[derive(Debug, Clone)]
pub struct Character {
    pub id: i64,
    pub name: String,
    pub poster: Option<Poster>,
}

/// The roles a character has in a title.
#[derive(Debug, Clone)]
pub struct CharacterRole {
    pub id: i64,
    pub roles_ru: Option<Vec<String>>,
    pub roles_en: Option<Vec<String>>,
    pub character: Character,
}

/// The anime at the other end of a relation.
#[derive(Debug, Clone)]
pub struct RelatedAnime {
    pub id: Option<i64>,
    pub name: Option<String>,
}

/// The manga at the other end of a relation.
#[derive(Debug, Clone)]
pub struct RelatedManga {
    pub id: Option<i64>,
    pub name: Option<String>,
}

/// A relation from one title to another.
#[derive(Debug, Clone)]
pub struct Related {
    pub id: i64,
    pub anime: Option<RelatedAnime>,
    pub manga: Option<RelatedManga>,
    pub relation_kind: String,
    pub relation_text: Option<String>,
}

/// A video attached to an anime.
#[derive(Debug, Clone)]
pub struct Video {
    pub id: i64,
    pub url: Option<String>,
    pub name: Option<String>,
    pub kind: Option<String>,
    pub player_url: Option<String>,
    pub image_url: Option<String>,
}

/// A screenshot of an anime, in several sizes.
#[derive(Debug, Clone)]
pub struct Screenshot {
    pub id: i64,
    pub original_url: Option<String>,
    pub x166_url: Option<String>,
    pub x332_url: Option<String>,
}

/// How many users gave a title one score.
#[derive(Debug, Clone)]
pub struct ScoreStat {
    pub score: i32,
    pub count: i32,
}

/// How many users keep a title under one list status.
#[derive(Debug, Clone)]
pub struct StatusStat {
    pub status: String,
    pub count: i32,
}

/// A character with all the fields the service returns.
#[derive(Debug, Clone)]
pub struct CharacterFull {
    pub id: i64,
    pub mal_id: Option<i64>,
    pub name: String,
    pub russian: Option<String>,
    pub japanese: Option<String>,
    pub synonyms: Option<Vec<String>>,
    pub url: Option<String>,
    pub created_at: Option<String>,
    pub updated_at: Option<String>,
    pub is_anime: Option<bool>,
    pub is_manga: Option<bool>,
    pub is_ranobe: Option<bool>,
    pub poster: Option<Poster>,
    pub description: Option<String>,
    pub description_html: Option<String>,
    pub description_source: Option<String>,
}

/// A person with all the fields the service returns.
#[derive(Debug, Clone)]
pub struct PersonFull {
    pub id: i64,
    pub mal_id: Option<i64>,
    pub name: String,
    pub russian: Option<String>,
    pub japanese: Option<String>,
    pub synonyms: Option<Vec<String>>,
    pub url: Option<String>,
    pub is_seyu: Option<bool>,
    pub is_mangaka: Option<bool>,
    pub is_producer: Option<bool>,
    pub website: Option<String>,
    pub created_at: Option<String>,
    pub updated_at: Option<String>,
    pub birth_on: Option<Date>,
    pub deceased_on: Option<Date>,
    pub poster: Option<Poster>,
}

} // verus!
