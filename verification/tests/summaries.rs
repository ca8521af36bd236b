use shared_prims::aggregator::NewsArticle;
use shared_prims::aggregator::Summary;
use shared_prims::aggregator::Tweet;

#[test]
fn a_tweet_summarizes_as_user_and_text() {
    let tweet = Tweet {
        username: String::from("horse_ebooks"),
        content: String::from("of course, as you probably already know, people"),
        reply: false,
        retweet: false,
    };
    assert_eq!(
        tweet.summarize(),
        "horse_ebooks: of course, as you probably already know, people"
    );
    assert_eq!(tweet.summarize_auther(), "@horse_ebooks");
}

#[test]
fn an_article_summarizes_as_headline_author_and_location() {
    let article = NewsArticle {
        headline: String::from("Penguins win the Stanley Cup Championship!"),
        location: String::from("Pittsburgh, PA, USA"),
        author: String::from("Iceburgh"),
        content: String::from(
            "The Pittsburgh Penguins once again are the best hockey team in the NHL.",
        ),
    };
    assert_eq!(
        article.summarize(),
        "Penguins win the Stanley Cup Championship!, by Iceburgh (Pittsburgh, PA, USA)"
    );
    assert_eq!(article.summarize_auther(), "@Iceburgh");
}
